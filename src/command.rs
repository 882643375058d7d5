use vstd::prelude::*;
use vstd::string::*;

verus! {

/// A command that a chat message may carry.
#[derive(Clone, Copy, Debug, PartialEq, Eq, Structural)]
pub enum Command {
    /// `!party`: a celebration.
    Party,
    /// `!boo`: a scare.
    Boo,
    /// `!status`: the pool's current figures.
    Status,
}

/// Whether `p` occurs in `s` as a run of consecutive characters.
pub open spec fn has_substring(s: Seq<char>, p: Seq<char>) -> bool {
    exists|i: int| 0 <= i && i + p.len() <= s.len() && #[trigger] s.subrange(i, i + p.len()) == p
}

/// Relies on `str::contains` with a `&str` pattern: whether the pattern
/// occurs in the text.
#[verifier::external_body]
fn contains_text(s: &str, p: &str) -> (r: bool)
    ensures
        r == has_substring(s@, p@),
{
    s.contains(p)
}

/// The commands found anywhere in a message body, in the order party, boo,
/// status, each at most once.
pub open spec fn commands_of(body: Seq<char>) -> Seq<Command> {
    (if has_substring(body, "!party"@) { seq![Command::Party] } else { Seq::empty() })
        + (if has_substring(body, "!boo"@) { seq![Command::Boo] } else { Seq::empty() })
        + (if has_substring(body, "!status"@) { seq![Command::Status] } else { Seq::empty() })
}

/// The commands that a message body carries; text without one yields none.
pub fn commands_in(body: &str) -> (r: Vec<Command>)
    ensures
        r@ == commands_of(body@),
{
    let mut r: Vec<Command> = Vec::new();
    if contains_text(body, "!party") {
        r.push(Command::Party);
    }
    if contains_text(body, "!boo") {
        r.push(Command::Boo);
    }
    if contains_text(body, "!status") {
        r.push(Command::Status);
    }
    assert(r@ =~= commands_of(body@));
    r
}

pub open spec fn party_text() -> Seq<char> {
    "\u{1f389}\u{1f38a}\u{1f973} let's PARTY!! \u{1f973}\u{1f38a}\u{1f389}"@
}

pub open spec fn boo_text() -> Seq<char> {
    "\u{1f47b}  Booooo!!  \u{1f47b}"@
}

/// The answer to `!party`.
pub fn party_reply() -> (r: String)
    ensures
        r@ == party_text(),
{
    String::from_str("\u{1f389}\u{1f38a}\u{1f973} let's PARTY!! \u{1f973}\u{1f38a}\u{1f389}")
}

/// The answer to `!boo`.
pub fn boo_reply() -> (r: String)
    ensures
        r@ == boo_text(),
{
    String::from_str("\u{1f47b}  Booooo!!  \u{1f47b}")
}

} // verus!
