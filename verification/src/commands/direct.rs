//! Direct-mode connection decisions: where to connect and how a received file is
//! reported.

use vstd::prelude::*;

use crate::models::{ErrorKind, ItemStatus};

verus! {

/// The decimal digits of `n`, most significant first, without leading zeros.
pub open spec fn decimal(n: nat) -> Seq<char>
    decreases n,
{
    if n < 10 {
        seq![digit_char(n)]
    } else {
        decimal(n / 10).push(digit_char(n % 10))
    }
}

/// The character of the decimal digit `d`.
pub open spec fn digit_char(d: nat) -> char {
    ((d + 48) as u8) as char
}

/// `String::push`: appends one character.
#[verifier::external_body]
fn push_char(s: &mut String, c: char)
    ensures
        final(s)@ == old(s)@.push(c),
{
    s.push(c);
}

/// The decimal rendering of `n`.
pub fn decimal_string(n: u16) -> (s: String)
    ensures
        s@ == decimal(n as nat),
    decreases n,
{
    let d: u8 = (n % 10) as u8;
    let c = (d + 48) as char;
    if n < 10 {
        let mut s = String::new();
        push_char(&mut s, c);
        assert(s@ =~= seq![c]);
        s
    } else {
        let mut s = decimal_string(n / 10);
        push_char(&mut s, c);
        s
    }
}

/// Whether `s` contains a colon.
pub fn has_colon(s: &str) -> (b: bool)
    ensures
        b == s@.contains(':'),
{
    let n = s.unicode_len();
    let mut i: usize = 0;
    while i < n
        invariant
            n == s@.len(),
            i <= n,
            forall|k: int| 0 <= k < i ==> s@[k] != ':',
        decreases n - i,
    {
        if s.get_char(i) == ':' {
            assert(s@[i as int] == ':');
            return true;
        }
        i += 1;
    }
    false
}

/// The address to connect to: `address` as given when it names a port (contains a
/// colon), otherwise `address` followed by `:` and the default `port`.
pub fn direct_target(address: &str, port: u16) -> (target: String)
    ensures
        address@.contains(':') ==> target@ == address@,
        !address@.contains(':') ==> target@ == address@ + seq![':'] + decimal(port as nat),
{
    if has_colon(address) {
        String::from_str(address)
    } else {
        let mut target = String::from_str(address);
        push_char(&mut target, ':');
        let port_text = decimal_string(port);
        target.append(port_text.as_str());
        assert(target@ =~= address@ + seq![':'] + decimal(port as nat));
        target
    }
}

/// How a file received over a Direct-mode connection is reported: done when its
/// hash matched, otherwise a hash-mismatch error.
pub fn received_file_status(success: bool) -> (status: ItemStatus)
    ensures
        success ==> status == ItemStatus::Done,
        !success ==> (status matches ItemStatus::Error { kind, message } && kind == ErrorKind::HashMismatch
            && message@ == "received file did not match the sender's hash"@),
{
    if success {
        ItemStatus::Done
    } else {
        ItemStatus::Error {
            kind: ErrorKind::HashMismatch,
            message: String::from_str("received file did not match the sender's hash"),
        }
    }
}

} // verus!
