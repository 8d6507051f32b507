//! Stations and songs as the station directory describes them, and the rule that
//! picks the song now playing out of the directory's answers.
use vstd::prelude::*;

verus! {

/// A song: its title and its artist.
#[derive(Debug)]
pub struct Title {
    pub song: String,
    pub artist: String,
}

impl Clone for Title {
    fn clone(&self) -> (r: Self)
        ensures
            r == *self,
    {
        Title { song: self.song.clone(), artist: self.artist.clone() }
    }
}

impl Title {
    /// The song as shown to the user: `song - artist`.
    pub fn text(&self) -> (r: String)
        ensures
            r@ == self.song@ + " - "@ + self.artist@,
    {
        let mut r = self.song.clone();
        r.append(" - ");
        r.append(self.artist.as_str());
        r
    }
}

/// A radio station of the directory.
#[derive(Debug)]
pub struct Station {
    pub id: usize,
    pub title: String,
    pub prefix: String,
    pub tooltip: String,
    pub short_title: String,
    pub icon_fill_white: String,
    pub stream_320: String,
}

impl Clone for Station {
    fn clone(&self) -> (r: Self)
        ensures
            r == *self,
    {
        Station {
            id: self.id,
            title: self.title.clone(),
            prefix: self.prefix.clone(),
            tooltip: self.tooltip.clone(),
            short_title: self.short_title.clone(),
            icon_fill_white: self.icon_fill_white.clone(),
            stream_320: self.stream_320.clone(),
        }
    }
}

/// Two stations are the same station when their ids agree, whatever their other
/// fields say.
impl PartialEq for Station {
    fn eq(&self, other: &Station) -> (r: bool) {
        self.id == other.id
    }
}

impl vstd::std_specs::cmp::PartialEqSpecImpl for Station {
    open spec fn obeys_eq_spec() -> bool {
        true
    }

    open spec fn eq_spec(&self, other: &Station) -> bool {
        self.id == other.id
    }
}

impl Eq for Station {}

/// Why the directory gave no answer.
#[derive(Debug, Clone, Copy, PartialEq, Eq, Structural)]
pub enum ApiError {
    /// The directory could not be reached.
    NoConnection,
    /// The directory answered with something unexpected.
    ServerError,
}

/// What a station's play history says of the song now playing.
#[derive(Debug)]
pub enum Lookup {
    /// The newest entry of the history.
    Found(Title),
    /// The directory is unreachable.
    Failed(ApiError),
    /// The history was unusable: ask the endpoint that lists what every station plays.
    Fallback,
}

/// The song now playing on a station, from the answer to the request for its
/// history: the newest entry, or the fallback request when the directory answered
/// unexpectedly (an error or an empty history).
pub fn now_playing(history: Result<Vec<Title>, ApiError>) -> (r: Lookup)
    ensures
        match history {
            Ok(v) => if v@.len() > 0 {
                r == Lookup::Found(v@[0])
            } else {
                r is Fallback
            },
            Err(ApiError::ServerError) => r is Fallback,
            Err(ApiError::NoConnection) => r == Lookup::Failed(ApiError::NoConnection),
        },
{
    match history {
        Ok(mut v) => {
            if v.len() > 0 {
                Lookup::Found(v.remove(0))
            } else {
                Lookup::Fallback
            }
        },
        Err(ApiError::ServerError) => Lookup::Fallback,
        Err(e) => Lookup::Failed(e),
    }
}

/// The song now playing on the station at position `index` of the directory,
/// from the answer of the endpoint that lists the current song of every station
/// in directory order.
pub fn now_playing_back(index: usize, current: Result<Vec<Title>, ApiError>) -> (r: Result<
    Title,
    ApiError,
>)
    ensures
        match current {
            Ok(v) => if index < v@.len() {
                r == Ok::<Title, ApiError>(v@[index as int])
            } else {
                r == Err::<Title, ApiError>(ApiError::ServerError)
            },
            Err(e) => r == Err::<Title, ApiError>(e),
        },
{
    match current {
        Ok(mut v) => {
            if index < v.len() {
                Ok(v.swap_remove(index))
            } else {
                Err(ApiError::ServerError)
            }
        },
        Err(e) => Err(e),
    }
}

/// The position of the first station whose prefix is `prefix`.
pub fn position_by_prefix(stations: &Vec<Station>, prefix: &String) -> (r: Option<usize>)
    ensures
        match r {
            Some(i) => i < stations@.len() && stations@[i as int].prefix@ == prefix@ && forall|
                j: int,
            |
                0 <= j < i ==> stations@[j].prefix@ != prefix@,
            None => forall|j: int| 0 <= j < stations@.len() ==> stations@[j].prefix@ != prefix@,
        },
{
    let mut i: usize = 0;
    while i < stations.len()
        invariant
            i <= stations@.len(),
            forall|j: int| 0 <= j < i ==> stations@[j].prefix@ != prefix@,
        decreases stations@.len() - i,
    {
        if stations[i].prefix == *prefix {
            return Some(i);
        }
        i += 1;
    }
    None
}

/// The prefixes of the stations, each followed by `sep`.
pub open spec fn listing(s: Seq<Station>, sep: Seq<char>) -> Seq<char>
    decreases s.len(),
{
    if s.len() == 0 {
        Seq::empty()
    } else {
        listing(s.drop_last(), sep) + s.last().prefix@ + sep
    }
}

/// The station directory as printed: the prefixes on one line, separated by
/// `, `, or one per line.
pub fn prefix_listing(stations: &Vec<Station>, one_line: bool) -> (r: String)
    ensures
        r@ == listing(stations@, if one_line {
            ", "@
        } else {
            "\n"@
        }),
{
    let sep = if one_line {
        ", "
    } else {
        "\n"
    };
    let mut r = String::new();
    let mut i: usize = 0;
    while i < stations.len()
        invariant
            i <= stations@.len(),
            sep@ == (if one_line {
                ", "@
            } else {
                "\n"@
            }),
            r@ == listing(stations@.take(i as int), sep@),
        decreases stations@.len() - i,
    {
        assert(stations@.take(i + 1).drop_last() =~= stations@.take(i as int));
        r.append(stations[i].prefix.as_str());
        r.append(sep);
        i += 1;
    }
    assert(stations@.take(i as int) =~= stations@);
    r
}

} // verus!
