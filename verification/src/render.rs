//! Rendering of the target listing: one `<li>` line per target with its
//! id, address and last known status, a status never probed showing as
//! unhealthy.

use vstd::prelude::*;
use vstd::string::StringExecFns;
use crate::target::{Target, TargetModel};

verus! {

/// The decimal digit character for `d`.
pub open spec fn digit_char(d: int) -> char {
    ((d + 48) as u8) as char
}

/// The decimal digits of a non-negative number, most significant first.
pub open spec fn dec_nat(n: nat) -> Seq<char>
    decreases n,
{
    if n < 10 {
        seq![digit_char(n as int)]
    } else {
        dec_nat(n / 10) + seq![digit_char((n % 10) as int)]
    }
}

/// The decimal rendering of an integer, with a leading minus sign when
/// it is negative.
pub open spec fn dec_int(n: int) -> Seq<char> {
    if n < 0 {
        seq!['-'] + dec_nat((-n) as nat)
    } else {
        dec_nat(n as nat)
    }
}

/// How a status is shown: the last probe outcome, unhealthy if none.
pub open spec fn shown_status(status: Option<bool>) -> bool {
    match status {
        Some(b) => b,
        None => false,
    }
}

/// The characters "true" or "false".
pub open spec fn bool_chars(b: bool) -> Seq<char> {
    if b {
        "true"@
    } else {
        "false"@
    }
}

/// The listing line for one target.
pub open spec fn line_spec(t: TargetModel) -> Seq<char> {
    "<li>ID: "@ + dec_int(t.id) + " - URL: "@ + t.url + " - Status: "@ + bool_chars(
        shown_status(t.status),
    ) + "</li>"@
}

/// The whole listing: every target's line, in store order.
pub open spec fn listing_spec(ts: Seq<TargetModel>) -> Seq<char>
    decreases ts.len(),
{
    if ts.len() == 0 {
        Seq::<char>::empty()
    } else {
        listing_spec(ts.drop_last()) + line_spec(ts.last())
    }
}

/// The character for one decimal digit.
fn digit_str(d: u32) -> (s: &'static str)
    requires
        d < 10,
    ensures
        s@ =~= seq![digit_char(d as int)],
{
    proof {
        reveal_strlit("0");
        reveal_strlit("1");
        reveal_strlit("2");
        reveal_strlit("3");
        reveal_strlit("4");
        reveal_strlit("5");
        reveal_strlit("6");
        reveal_strlit("7");
        reveal_strlit("8");
        reveal_strlit("9");
    }
    if d == 0 {
        "0"
    } else if d == 1 {
        "1"
    } else if d == 2 {
        "2"
    } else if d == 3 {
        "3"
    } else if d == 4 {
        "4"
    } else if d == 5 {
        "5"
    } else if d == 6 {
        "6"
    } else if d == 7 {
        "7"
    } else if d == 8 {
        "8"
    } else {
        "9"
    }
}

/// The decimal digits of `n`.
pub fn u32_string(n: u32) -> (s: String)
    ensures
        s@ == dec_nat(n as nat),
    decreases n,
{
    if n < 10 {
        String::from_str(digit_str(n))
    } else {
        let mut s = u32_string(n / 10);
        s.append(digit_str(n % 10));
        proof {
            assert(s@ =~= dec_nat(n as nat));
        }
        s
    }
}

/// The decimal rendering of `n`, sign included.
pub fn i32_string(n: i32) -> (s: String)
    ensures
        s@ == dec_int(n as int),
{
    if n >= 0 {
        u32_string(n as u32)
    } else {
        let magnitude = (-(n as i64)) as u32;
        let mut s = String::from_str("-");
        let digits = u32_string(magnitude);
        s.append(digits.as_str());
        proof {
            reveal_strlit("-");
            assert(s@ =~= dec_int(n as int));
        }
        s
    }
}

/// The characters "true" or "false".
pub fn bool_str(b: bool) -> (s: &'static str)
    ensures
        s@ == bool_chars(b),
{
    if b {
        "true"
    } else {
        "false"
    }
}

/// Render one target's listing line.
pub fn render_line(t: &Target) -> (s: String)
    ensures
        s@ == line_spec(t@),
{
    let mut s = String::from_str("<li>ID: ");
    let id = i32_string(t.id);
    s.append(id.as_str());
    s.append(" - URL: ");
    s.append(t.url.as_str());
    s.append(" - Status: ");
    let st = match t.status {
        Some(b) => b,
        None => false,
    };
    s.append(bool_str(st));
    s.append("</li>");
    proof {
        assert(s@ =~= line_spec(t@));
    }
    s
}

/// Render the whole listing, one line per target, in store order.
pub fn render_listing(targets: &Vec<Target>) -> (s: String)
    ensures
        s@ == listing_spec(targets@.map_values(|t: Target| t@)),
{
    let ghost models = targets@.map_values(|t: Target| t@);
    let n = targets.len();
    let mut s = String::new();
    let mut j: usize = 0;
    while j < n
        invariant
            n == targets.len(),
            j <= n,
            models == targets@.map_values(|t: Target| t@),
            s@ == listing_spec(models.take(j as int)),
        decreases n - j,
    {
        let line = render_line(&targets[j]);
        s.append(line.as_str());
        proof {
            assert(models.take(j + 1).drop_last() =~= models.take(j as int));
            assert(models.take(j + 1).last() == models[j as int]);
            assert(s@ == listing_spec(models.take(j + 1)));
        }
        j = j + 1;
    }
    proof {
        assert(models.take(n as int) =~= models);
    }
    s
}

} // verus!
