use rrt::api::{position_by_prefix, prefix_listing, Station};
use rrt::app::RefreshCountdown;
use rrt::tools::{art_from_pixels, station_art};

fn station(id: usize, prefix: &str) -> Station {
    Station {
        id,
        title: format!("t{}", id),
        prefix: prefix.to_string(),
        tooltip: String::new(),
        short_title: String::new(),
        icon_fill_white: String::new(),
        stream_320: format!("url_{}", id),
    }
}

#[test]
fn position_by_prefix_finds_first_match() {
    let list = vec![station(1, "rock"), station(2, "chill"), station(3, "chill")];
    assert_eq!(position_by_prefix(&list, &"chill".to_string()), Some(1));
    assert_eq!(position_by_prefix(&list, &"rock".to_string()), Some(0));
    assert_eq!(position_by_prefix(&list, &"jazz".to_string()), None);
}

#[test]
fn prefix_listing_on_one_line_or_many() {
    let list = vec![station(1, "rock"), station(2, "chill")];
    assert_eq!(prefix_listing(&list, true), "rock, chill, ");
    assert_eq!(prefix_listing(&list, false), "rock\nchill\n");
    assert_eq!(prefix_listing(&vec![], true), "");
}

#[test]
fn refresh_countdown_fires_first_then_periodically() {
    let mut c = RefreshCountdown::new(3, 2);
    let fired: Vec<bool> = (0..7).map(|_| c.tick()).collect();
    assert_eq!(fired, vec![false, false, true, false, true, false, true]);
}

fn pixel(v: u8) -> [u8; 3] {
    [v, v, v]
}

fn picture(rows: &[&[[u8; 3]]]) -> Vec<u8> {
    rows.iter().flat_map(|r| r.iter().flat_map(|p| p.iter().copied())).collect()
}

#[test]
fn art_keeps_lit_pixels_shifted_to_the_corner() {
    let d = pixel(0);
    let w = pixel(255);
    let rgb = picture(&[&[d, d, d, d], &[d, w, d, d], &[d, d, w, w]]);
    let art = art_from_pixels(4, 3, &rgb);
    assert_eq!(art.icon, vec![(0, 0), (1, 1), (2, 1)]);
    assert_eq!(art.size_x, 3);
    assert_eq!(art.size_y, 1);
}

#[test]
fn art_threshold_is_a_mean_above_128() {
    let rgb = picture(&[&[[128, 128, 128], [129, 128, 128], [255, 129, 0]]]);
    let art = art_from_pixels(3, 1, &rgb);
    assert_eq!(art.icon, vec![(0, 0)]);
    assert_eq!(art.size_x, 1);
}

#[test]
fn art_of_dark_picture_is_empty() {
    let art = art_from_pixels(2, 2, &vec![0u8; 12]);
    assert!(art.icon.is_empty());
    assert_eq!((art.size_x, art.size_y), (0, 0));
}

#[test]
fn art_ignores_pixels_past_a_short_buffer() {
    let art = art_from_pixels(2, 2, &vec![255u8; 6]);
    assert_eq!(art.icon, vec![(0, 0), (1, 0)]);
}

#[test]
fn station_art_scales_the_picture_down() {
    let rgb = vec![255u8; 4 * 2 * 3];
    let art = station_art(4, 2, rgb, 2).unwrap();
    assert_eq!(art.icon, vec![(0, 0), (1, 0)]);
    assert_eq!(art.size_x, 1);
    assert_eq!(art.size_y, 0);
}

#[test]
fn station_art_refuses_empty_or_short_pictures() {
    assert!(station_art(0, 2, vec![], 2).is_none());
    assert!(station_art(2, 2, vec![255u8; 11], 2).is_none());
}
