//! Decisions of the web error banner: which error records reach it, and
//! how a record that repeats every frame collapses into one line with a
//! running `(xN)` counter instead of filling the banner.
//!
//! The page itself (the overlay, its lines, the console) belongs to the
//! host; it hands each message over with the number of lines the banner
//! shows and performs the action it gets back.

use vstd::prelude::*;
use crate::sys::garde_graphique::{
    est_de_la_pile_graphique, panique_de_rendu, spec_est_de_la_pile_graphique, spec_panique_de_rendu,
};
use crate::text::{chars_of, char_is_control, is_control, owned, push_char, push_decimal, push_str, seq_eq, spec_decimal};

verus! {

/// Cap on banner lines, so that an error raised every frame cannot grow the
/// page forever.
pub const MAX_LINES: u32 = 12;

/// What the host does to the banner for one message.
pub enum BannerAction {
    /// Replace the text of the banner's last line.
    RewriteLast(String),
    /// Add a line at the end, removing the first one beforehand when
    /// `drop_first` holds.
    Append { drop_first: bool, text: String },
}

/// The last message shown and how many times in a row it came.
pub struct BannerState {
    last: String,
    repeats: u32,
}

/// `msg (xN)`.
pub open spec fn repeated_line(msg: Seq<char>, n: nat) -> Seq<char> {
    msg + " (x"@ + spec_decimal(n) + ")"@
}

/// The console line of an error record: `[target] text`.
pub open spec fn spec_record_line(target: Seq<char>, text: Seq<char>) -> Seq<char> {
    "["@ + target + "] "@ + text
}

/// An error-level log record: its console line, and whether the banner
/// shows it too. Records of the rendering stack go to the console only:
/// every one of them comes from a third-party crate and tells the visitor
/// to file a bug with that crate.
pub fn log_record(target: &str, text: &str) -> (r: (String, bool))
    ensures
        r.0@ == spec_record_line(target@, text@),
        r.1 == !spec_est_de_la_pile_graphique(target@),
{
    let mut line = owned("[");
    push_str(&mut line, target);
    push_str(&mut line, "] ");
    push_str(&mut line, text);
    (line, !est_de_la_pile_graphique(target))
}

/// What a panic puts on the page. On the web a panic is always terminal.
#[derive(Clone, Copy, PartialEq, Eq, Structural, Debug)]
pub enum PanicScreen {
    /// The page is replaced by a plain message that the module needs a
    /// computer: the rendering stack failed, and its trace is of no use to
    /// the visitor.
    Fatal,
    /// The panic text goes to the error banner, with its Copy button: it is
    /// a bug of the application itself.
    Banner,
}

/// The screen a panic with this text gets.
pub fn panic_screen(texte: &str) -> (s: PanicScreen)
    ensures
        s == (if spec_panique_de_rendu(texte@) {
            PanicScreen::Fatal
        } else {
            PanicScreen::Banner
        }),
{
    if panique_de_rendu(texte) {
        PanicScreen::Fatal
    } else {
        PanicScreen::Banner
    }
}

impl BannerState {
    /// The last message shown.
    pub closed spec fn last(&self) -> Seq<char> {
        self.last@
    }

    /// How many times in a row it came.
    pub closed spec fn repeats(&self) -> u32 {
        self.repeats
    }

    /// Nothing shown yet.
    pub fn new() -> (s: Self)
        ensures
            s.last() == Seq::<char>::empty(),
            s.repeats() == 0,
    {
        BannerState { last: String::new(), repeats: 0 }
    }

    /// Appends `msg` to a banner that holds `lines_shown` lines (none when
    /// the page has no banner yet, or the user dismissed it). The same
    /// message again, while a line is shown, rewrites the last line with its
    /// count; otherwise the message is appended as a new line, the oldest
    /// one giving way once the banner is full. The counter wraps past
    /// `u32::MAX`, as the module's release build does.
    pub fn show_banner(&mut self, msg: &str, lines_shown: u32) -> (a: BannerAction)
        ensures
            old(self).last() == msg@ && lines_shown > 0 ==> {
                &&& final(self).last() == old(self).last()
                &&& final(self).repeats() == (if old(self).repeats() == u32::MAX {
                    0
                } else {
                    old(self).repeats() + 1
                })
                &&& a matches BannerAction::RewriteLast(t) && t@ == repeated_line(
                    msg@,
                    final(self).repeats() as nat,
                )
            },
            !(old(self).last() == msg@ && lines_shown > 0) ==> {
                &&& final(self).last() == msg@
                &&& final(self).repeats() == 1
                &&& a matches BannerAction::Append { drop_first, text } && drop_first == (lines_shown
                    >= MAX_LINES) && text@ == msg@
            },
    {
        if lines_shown > 0 && seq_eq(&chars_of(self.last.as_str()), &chars_of(msg)) {
            self.repeats = self.repeats.wrapping_add(1);
            let mut line = owned(msg);
            push_str(&mut line, " (x");
            push_decimal(&mut line, self.repeats as usize);
            push_char(&mut line, ')');
            proof {
                assert(")"@ == seq![')']) by {
                    reveal_strlit(")");
                }
            }
            return BannerAction::RewriteLast(line);
        }
        self.last = owned(msg);
        self.repeats = 1;
        BannerAction::Append { drop_first: lines_shown >= MAX_LINES, text: owned(msg) }
    }
}

/// Cap on the characters replayed as typing in one go, so that a runaway
/// clipboard cannot wedge the event loop.
pub const MAX_TYPED: usize = 1024;

/// `s` without its control characters, in order.
pub open spec fn without_controls(s: Seq<char>) -> Seq<char>
    decreases s.len(),
{
    if s.len() == 0 {
        s
    } else if is_control(s.last()) {
        without_controls(s.drop_last())
    } else {
        without_controls(s.drop_last()).push(s.last())
    }
}

/// The characters replayed as typing for `text`: its non-control
/// characters, at most `MAX_TYPED` of them.
pub open spec fn spec_typed_characters(text: Seq<char>) -> Seq<char> {
    let k = without_controls(text);
    if k.len() <= MAX_TYPED {
        k
    } else {
        k.take(MAX_TYPED as int)
    }
}

proof fn lemma_without_controls_prefix(s: Seq<char>, i: int, j: int)
    requires
        0 <= i <= j <= s.len(),
    ensures
        without_controls(s.take(i)).len() <= without_controls(s.take(j)).len(),
        without_controls(s.take(j)).take(without_controls(s.take(i)).len() as int) == without_controls(s.take(i)),
    decreases j - i,
{
    if i < j {
        lemma_without_controls_prefix(s, i, j - 1);
        assert(s.take(j).drop_last() == s.take(j - 1));
        let a = without_controls(s.take(i));
        let b = without_controls(s.take(j - 1));
        let c = without_controls(s.take(j));
        if !is_control(s.take(j).last()) {
            assert(c == b.push(s.take(j).last()));
            assert(c.take(a.len() as int) =~= b.take(a.len() as int));
        }
    } else {
        assert(without_controls(s.take(j)).take(without_controls(s.take(i)).len() as int) =~= without_controls(s.take(i)));
    }
}

/// The characters replayed into the focused field when text is pasted:
/// control characters are dropped and the length is capped.
pub fn typed_characters(text: &str) -> (r: Vec<char>)
    ensures
        r@ == spec_typed_characters(text@),
{
    let cs = chars_of(text);
    let mut r: Vec<char> = Vec::new();
    let mut i: usize = 0;
    while i < cs.len() && r.len() < MAX_TYPED
        invariant
            cs@ == text@,
            i <= cs.len(),
            r@ == without_controls(cs@.take(i as int)),
            r@.len() <= MAX_TYPED,
        decreases cs.len() - i,
    {
        assert(cs@.take(i + 1).drop_last() == cs@.take(i as int));
        if !char_is_control(cs[i]) {
            r.push(cs[i]);
        }
        i += 1;
    }
    proof {
        assert(cs@.take(cs@.len() as int) == cs@);
        lemma_without_controls_prefix(cs@, i as int, cs@.len() as int);
    }
    r
}

} // verus!
