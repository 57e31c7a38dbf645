//! Render milestones for the PTY snapshot runner: an invisible
//! window-title update `OSC 2 ; pty-terminal-test:<id>:<base64url(name)> ST`
//! per picker render. A fresh random id per emission keeps repeated
//! milestones with the same name observable as distinct title changes.

use vstd::prelude::*;
use vstd::string::*;

verus! {

/// A lowercase hexadecimal digit.
pub open spec fn is_lower_hex(c: char) -> bool {
    ('0' <= c && c <= '9') || ('a' <= c && c <= 'f')
}

/// Calls `uuid::Uuid::new_v4` and renders it with `simple()`. The crate
/// documents the simple form as the 32 lowercase hexadecimal digits of the
/// id; the contract claims that shape and nothing of the random value.
#[verifier::external_body]
fn random_simple_id() -> (r: String)
    ensures
        r@.len() == 32,
        forall|i: int| 0 <= i < 32 ==> is_lower_hex(#[trigger] r@[i]),
{
    uuid::Uuid::new_v4().simple().to_string()
}

/// What `base64_simd::URL_SAFE_NO_PAD.encode_to_string` yields for the
/// UTF-8 bytes of a text.
pub uninterp spec fn base64_url_no_pad(text: Seq<char>) -> Seq<char>;

/// Calls `base64_simd::URL_SAFE_NO_PAD.encode_to_string` on the UTF-8
/// bytes of `text`; the contract claims only that the result is a
/// function of the text.
#[verifier::external_body]
fn encode_base64_url(text: &str) -> (r: String)
    ensures
        r@ == base64_url_no_pad(text@),
{
    base64_simd::URL_SAFE_NO_PAD.encode_to_string(text.as_bytes())
}

pub open spec fn title_text(id: Seq<char>, encoded_name: Seq<char>) -> Seq<char> {
    "\x1b]2;pty-terminal-test:"@ + id + ":"@ + encoded_name + "\x1b\\"@
}

/// The title-update sequence for an emission id and an encoded name.
pub fn title_sequence(id: &str, encoded_name: &str) -> (r: String)
    ensures
        r@ == title_text(id@, encoded_name@),
{
    let mut title = String::from_str("\x1b]2;pty-terminal-test:");
    title.append(id);
    title.append(":");
    title.append(encoded_name);
    title.append("\x1b\\");
    title
}

/// The title update that emits the milestone `name` under a fresh id.
pub fn milestone_title(name: &str) -> (r: String)
    ensures
        exists|id: Seq<char>|
            {
                &&& id.len() == 32
                &&& forall|i: int| 0 <= i < 32 ==> is_lower_hex(#[trigger] id[i])
                &&& r@ == title_text(id, base64_url_no_pad(name@))
            },
{
    let id = random_simple_id();
    let encoded = encode_base64_url(name);
    let r = title_sequence(id.as_str(), encoded.as_str());
    assert(r@ == title_text(id@, base64_url_no_pad(name@)));
    r
}

/// The decimal digit `d`.
pub open spec fn digit_char(d: nat) -> char {
    if d == 0 { '0' }
    else if d == 1 { '1' }
    else if d == 2 { '2' }
    else if d == 3 { '3' }
    else if d == 4 { '4' }
    else if d == 5 { '5' }
    else if d == 6 { '6' }
    else if d == 7 { '7' }
    else if d == 8 { '8' }
    else { '9' }
}

/// The decimal rendering of `n`.
pub open spec fn decimal(n: nat) -> Seq<char>
    decreases n,
{
    if n < 10 {
        seq![digit_char(n)]
    } else {
        decimal(n / 10).push(digit_char(n % 10))
    }
}

fn digit_str(d: usize) -> (r: &'static str)
    requires
        d < 10,
    ensures
        r@ == seq![digit_char(d as nat)],
{
    proof {
        reveal_strlit("0");
        reveal_strlit("1");
        reveal_strlit("2");
        reveal_strlit("3");
        reveal_strlit("4");
        reveal_strlit("5");
        reveal_strlit("6");
        reveal_strlit("7");
        reveal_strlit("8");
        reveal_strlit("9");
    }
    match d {
        0 => "0",
        1 => "1",
        2 => "2",
        3 => "3",
        4 => "4",
        5 => "5",
        6 => "6",
        7 => "7",
        8 => "8",
        _ => "9",
    }
}

fn push_decimal(out: &mut String, n: usize)
    ensures
        final(out)@ == old(out)@ + decimal(n as nat),
    decreases n,
{
    if n >= 10 {
        push_decimal(out, n / 10);
    }
    out.append(digit_str(n % 10));
    proof {
        if n >= 10 {
            assert(decimal(n as nat) == decimal((n / 10) as nat).push(digit_char((n % 10) as nat)));
        }
    }
}

pub open spec fn milestone_name_text(prefix: Seq<char>, query: Seq<char>, index: nat) -> Seq<char> {
    prefix + ":"@ + query + ":"@ + decimal(index)
}

/// The milestone of a picker render: `<prefix>:<query>:<selected index>`.
pub fn milestone_name(prefix: &str, query: &str, index: usize) -> (r: String)
    ensures
        r@ == milestone_name_text(prefix@, query@, index as nat),
{
    let mut name = String::from_str(prefix);
    name.append(":");
    name.append(query);
    name.append(":");
    push_decimal(&mut name, index);
    name
}

} // verus!
