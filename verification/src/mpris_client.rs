use vstd::prelude::*;
use vstd::string::*;

verus! {

/// Microseconds in one second.
pub const MICROS_PER_SEC: u64 = 1_000_000;

/// Playback state reported by an MPRIS player.
#[derive(Debug, Clone, Copy, PartialEq, Eq, Structural)]
pub enum PlaybackStatus {
    Playing,
    Paused,
    Stopped,
}

/// The name under which a playback state is recorded in `TrackInfo::status`.
pub open spec fn status_name(s: PlaybackStatus) -> Seq<char> {
    match s {
        PlaybackStatus::Playing => "Playing"@,
        PlaybackStatus::Paused => "Paused"@,
        PlaybackStatus::Stopped => "Stopped"@,
    }
}

impl PlaybackStatus {
    /// The name of the state, as `Debug` spells it.
    pub fn name(&self) -> (s: String)
        ensures
            s@ == status_name(*self),
    {
        match self {
            PlaybackStatus::Playing => String::from_str("Playing"),
            PlaybackStatus::Paused => String::from_str("Paused"),
            PlaybackStatus::Stopped => String::from_str("Stopped"),
        }
    }
}

/// Information about the currently playing track.
///
/// `position` and `length` are in microseconds, the unit in which MPRIS
/// reports them.
#[derive(Debug, Clone)]
pub struct TrackInfo {
    pub title: String,
    pub artist: String,
    pub position: u64,
    pub length: u64,
    pub status: String,
}

impl Default for TrackInfo {
    fn default() -> (t: TrackInfo)
        ensures
            t.title@ == Seq::<char>::empty(),
            t.artist@ == Seq::<char>::empty(),
            t.position == 0,
            t.length == 0,
            t.status@ == Seq::<char>::empty(),
    {
        TrackInfo {
            title: String::new(),
            artist: String::new(),
            position: 0,
            length: 0,
            status: String::new(),
        }
    }
}

/// Title shown when the player reports none.
pub open spec fn unknown_title() -> Seq<char> {
    "Unknown"@
}

/// Artist shown when the player reports none.
pub open spec fn unknown_artist() -> Seq<char> {
    "Unknown Artist"@
}

/// Whether `track` differs from `last` enough to redraw the screen: another
/// title, another artist, or another whole second of playback position.
pub open spec fn track_changed(track: TrackInfo, last: TrackInfo) -> bool {
    ||| track.title@ != last.title@
    ||| track.artist@ != last.artist@
    ||| track.position / MICROS_PER_SEC != last.position / MICROS_PER_SEC
}

impl TrackInfo {
    /// Assembles the track information from what the player reported; each
    /// value the player could not give is replaced by its default: the title
    /// by "Unknown", the artist (the first of the artists) by "Unknown
    /// Artist", position and length by zero, and the state by `Stopped`.
    pub fn from_player_state(
        title: Option<String>,
        artists: Option<Vec<String>>,
        position: Option<u64>,
        length: Option<u64>,
        status: Option<PlaybackStatus>,
    ) -> (t: TrackInfo)
        ensures
            t.title@ == (match title {
                Some(s) => s@,
                None => unknown_title(),
            }),
            t.artist@ == (match artists {
                Some(a) => if a.len() > 0 {
                    a[0]@
                } else {
                    unknown_artist()
                },
                None => unknown_artist(),
            }),
            t.position == (match position {
                Some(p) => p,
                None => 0,
            }),
            t.length == (match length {
                Some(l) => l,
                None => 0,
            }),
            t.status@ == status_name(
                match status {
                    Some(s) => s,
                    None => PlaybackStatus::Stopped,
                },
            ),
    {
        let title = match title {
            Some(s) => s,
            None => String::from_str("Unknown"),
        };
        let artist = match artists {
            Some(a) => if a.len() > 0 {
                a[0].clone()
            } else {
                String::from_str("Unknown Artist")
            },
            None => String::from_str("Unknown Artist"),
        };
        let position = match position {
            Some(p) => p,
            None => 0,
        };
        let length = match length {
            Some(l) => l,
            None => 0,
        };
        let status = match status {
            Some(s) => s,
            None => PlaybackStatus::Stopped,
        };
        TrackInfo { title, artist, position, length, status: status.name() }
    }

    /// Whether this track differs from `last` enough to redraw the screen.
    pub fn differs_from(&self, last: &TrackInfo) -> (b: bool)
        ensures
            b == track_changed(*self, *last),
            b == (self.title@ != last.title@ || self.artist@ != last.artist@ || self.position
                / 1_000_000 != last.position / 1_000_000),
    {
        proof {
            lemma_redraw_on_any_change(*self, *last);
        }
        self.title != last.title || self.artist != last.artist || self.position / MICROS_PER_SEC
            != last.position / MICROS_PER_SEC
    }
}


/// What `str::to_lowercase` returns for a string with the given characters.
pub uninterp spec fn lowercase(s: Seq<char>) -> Seq<char>;

/// Calls `str::to_lowercase`, which returns the lowercase equivalent of the
/// string under Unicode's `Lowercase` property. The contract only names the
/// result as `lowercase` of the argument's characters; what that mapping is
/// per character is not stated.
#[verifier::external_body]
fn to_lowercase(s: &str) -> (res: String)
    ensures
        res@ == lowercase(s@),
{
    s.to_lowercase()
}

/// `needle` occurs in `haystack` starting at index `i`.
pub open spec fn occurs_at(haystack: Seq<char>, needle: Seq<char>, i: int) -> bool {
    0 <= i && i + needle.len() <= haystack.len() && haystack.subrange(i, i + needle.len())
        == needle
}

/// `needle` occurs somewhere in `haystack` (the empty sequence occurs everywhere).
pub open spec fn contains_seq(haystack: Seq<char>, needle: Seq<char>) -> bool {
    exists|i: int| occurs_at(haystack, needle, i)
}

/// Whether `needle` occurs in `haystack`, character by character.
pub fn contains_str(haystack: &str, needle: &str) -> (b: bool)
    ensures
        b == contains_seq(haystack@, needle@),
{
    let h_len = haystack.unicode_len();
    let n_len = needle.unicode_len();
    if n_len > h_len {
        assert forall|i: int| !occurs_at(haystack@, needle@, i) by {}
        return false;
    }
    let last = h_len - n_len;
    let mut i: usize = 0;
    loop
        invariant
            h_len == haystack@.len(),
            n_len == needle@.len(),
            last == h_len - n_len,
            i <= last,
            forall|k: int| 0 <= k < i ==> !occurs_at(haystack@, needle@, k),
        decreases last - i,
    {
        let mut j: usize = 0;
        let mut matched = true;
        while j < n_len
            invariant
                h_len == haystack@.len(),
                n_len == needle@.len(),
                i + n_len <= h_len,
                j <= n_len,
                matched ==> forall|k: int| 0 <= k < j ==> haystack@[i + k] == needle@[k],
                !matched ==> !occurs_at(haystack@, needle@, i as int),
            decreases n_len - j,
        {
            if matched && haystack.get_char(i + j) != needle.get_char(j) {
                matched = false;
                assert(haystack@.subrange(i as int, i + n_len)[j as int] != needle@[j as int]);
            }
            j = j + 1;
        }
        if matched {
            assert(haystack@.subrange(i as int, i + n_len) =~= needle@);
            assert(occurs_at(haystack@, needle@, i as int));
            return true;
        }
        if i == last {
            assert forall|k: int| !occurs_at(haystack@, needle@, k) by {
                if 0 <= k && k + n_len <= h_len {
                    assert(k <= i);
                }
            }
            return false;
        }
        i = i + 1;
    }
}

/// The name a player must contain, in lower case, to count as Spotify.
pub open spec fn spotify_marker() -> Seq<char> {
    "spotify"@
}

/// A player identity belongs to Spotify when its lower-case form contains
/// "spotify".
pub open spec fn is_spotify(identity: Seq<char>) -> bool {
    contains_seq(lowercase(identity), spotify_marker())
}

/// Whether an already lower-cased identity contains "spotify".
pub fn lowered_identity_is_spotify(lowered: &str) -> (b: bool)
    ensures
        b == contains_seq(lowered@, spotify_marker()),
{
    contains_str(lowered, "spotify")
}

/// Whether a player identity belongs to Spotify.
pub fn is_spotify_identity(identity: &str) -> (b: bool)
    ensures
        b == is_spotify(identity@),
{
    let lowered = to_lowercase(identity);
    lowered_identity_is_spotify(lowered.as_str())
}

/// Index of the first player, in the order given, whose identity belongs
/// to Spotify; `None` when there is none.
pub fn find_spotify_player(identities: &Vec<String>) -> (r: Option<usize>)
    ensures
        match r {
            Some(i) => i < identities.len() && is_spotify(identities[i as int]@) && forall|j: int|
                0 <= j < i ==> !is_spotify(#[trigger] identities[j]@),
            None => forall|j: int| 0 <= j < identities.len() ==> !is_spotify(#[trigger] identities[j]@),
        },
{
    let mut i: usize = 0;
    while i < identities.len()
        invariant
            i <= identities.len(),
            forall|j: int| 0 <= j < i ==> !is_spotify(#[trigger] identities[j]@),
        decreases identities.len() - i,
    {
        if is_spotify_identity(identities[i].as_str()) {
            return Some(i);
        }
        i = i + 1;
    }
    None
}


/// A track differs from the last one drawn exactly when its title, its
/// artist or the whole second of its position differs.
pub proof fn lemma_redraw_on_any_change(track: TrackInfo, last: TrackInfo)
    ensures
        track_changed(track, last) <==> (track.title@ != last.title@ || track.artist@
            != last.artist@ || track.position / 1_000_000 != last.position / 1_000_000),
{
}

/// `needle` is contained in `haystack` exactly when `haystack` is some text,
/// then `needle`, then some more text.
pub proof fn lemma_contains_is_infix(haystack: Seq<char>, needle: Seq<char>)
    ensures
        contains_seq(haystack, needle) <==> exists|pre: Seq<char>, post: Seq<char>|
            haystack == pre + needle + post,
{
    if contains_seq(haystack, needle) {
        let i = choose|i: int| occurs_at(haystack, needle, i);
        let pre = haystack.take(i);
        let post = haystack.skip(i + needle.len());
        assert(haystack =~= pre + needle + post);
    }
    if exists|pre: Seq<char>, post: Seq<char>| haystack == pre + needle + post {
        let (pre, post) = choose|pre: Seq<char>, post: Seq<char>| haystack == pre + needle + post;
        assert(haystack.subrange(pre.len() as int, (pre.len() + needle.len()) as int) =~= needle);
        assert(occurs_at(haystack, needle, pre.len() as int));
    }
}

/// A player counts as Spotify exactly when its lower-cased identity is some
/// text, then "spotify", then some more text.
pub proof fn lemma_spotify_is_marker_infix(identity: Seq<char>)
    ensures
        is_spotify(identity) <==> exists|pre: Seq<char>, post: Seq<char>|
            lowercase(identity) == pre + "spotify"@ + post,
{
    lemma_contains_is_infix(lowercase(identity), "spotify"@);
}

} // verus!
