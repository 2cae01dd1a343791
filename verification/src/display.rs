use vstd::prelude::*;
use vstd::string::*;

verus! {

/// Characters that fit on one line of the 128x32 screen in the 6x10 font.
pub const LINE_WIDTH: usize = 21;

/// The text of `s` cut to at most `max_len` characters: kept whole when it
/// fits, otherwise its first `max_len - 3` characters followed by "...".
pub open spec fn truncated(s: Seq<char>, max_len: nat) -> Seq<char> {
    if s.len() <= max_len {
        s
    } else {
        s.take(max_len - 3) + "..."@
    }
}

/// The screen on which track information and messages are shown.
pub struct Display {
    enabled: bool,
}

impl Display {
    /// Whether the display drives real hardware.
    pub closed spec fn is_enabled(&self) -> bool {
        self.enabled
    }

    /// The display stands in for the SSD1306 screen without driving it:
    /// the device path and the pins are not used.
    pub fn new(_spi_device: &str, _dc_pin: u8, _rst_pin: u8) -> (d: Display)
        ensures
            !d.is_enabled(),
    {
        Display { enabled: false }
    }

    /// `s` cut to at most `max_len` characters, with "..." marking a cut.
    pub fn truncate(s: &str, max_len: usize) -> (r: String)
        requires
            s@.len() <= max_len || max_len >= 3,
        ensures
            r@ == truncated(s@, max_len as nat),
            s@.len() <= max_len ==> r@ == s@,
            s@.len() > max_len ==> r@.len() == max_len,
            s@.len() > max_len ==> r@.take(max_len - 3) == s@.take(max_len - 3),
            s@.len() > max_len ==> r@.subrange(max_len - 3, max_len as int) == seq!['.', '.', '.'],
    {
        proof {
            lemma_truncate_marks_cut(s@, max_len as nat);
        }
        if s.unicode_len() <= max_len {
            String::from_str(s)
        } else {
            let head = s.substring_char(0, max_len - 3);
            assert(head@ == s@.take(max_len - 3));
            String::from_str(head).concat("...")
        }
    }
}

/// Truncating the text of a line never leaves more than `max_len`
/// characters, and truncating again changes nothing.
pub proof fn lemma_truncate_fits_and_is_idempotent(s: Seq<char>, max_len: nat)
    requires
        max_len >= 3,
    ensures
        truncated(s, max_len).len() <= max_len,
        truncated(truncated(s, max_len), max_len) == truncated(s, max_len),
{
    reveal_strlit("...");
}

/// Text that fits is kept unchanged, and a cut keeps the start of the text.
pub proof fn lemma_truncate_keeps_prefix(s: Seq<char>, max_len: nat)
    requires
        max_len >= 3,
    ensures
        s.len() <= max_len ==> truncated(s, max_len) == s,
        s.len() > max_len ==> truncated(s, max_len).len() == max_len && truncated(s, max_len).take(
            max_len - 3,
        ) == s.take(max_len - 3),
{
    reveal_strlit("...");
    if s.len() > max_len {
        assert(truncated(s, max_len).take(max_len - 3) =~= s.take(max_len - 3));
    }
}


/// Text that fits is kept whole; text that does not fit becomes exactly
/// `max_len` characters: its first `max_len - 3` characters followed by
/// three dots.
pub proof fn lemma_truncate_marks_cut(s: Seq<char>, max_len: nat)
    requires
        s.len() <= max_len || max_len >= 3,
    ensures
        s.len() <= max_len ==> truncated(s, max_len) == s,
        s.len() > max_len ==> truncated(s, max_len).len() == max_len,
        s.len() > max_len ==> truncated(s, max_len).take(max_len - 3) == s.take(max_len - 3),
        s.len() > max_len ==> truncated(s, max_len).subrange(max_len - 3, max_len as int) == seq![
            '.',
            '.',
            '.',
        ],
{
    reveal_strlit("...");
    if s.len() > max_len {
        let t = truncated(s, max_len);
        assert(t.take(max_len - 3) =~= s.take(max_len - 3));
        assert(t.subrange(max_len - 3, max_len as int) =~= seq!['.', '.', '.']);
    }
}

} // verus!
