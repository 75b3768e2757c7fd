//! Building the human-readable messages that name a missing id: verified
//! decimal formatting over a mathematical spelling of the digits.

use vstd::prelude::*;
use vstd::string::StringExecFns;

verus! {

/// The digit character for `d`, a value below ten.
pub open spec fn digit_char(d: nat) -> char {
    if d == 0 {
        '0'
    } else if d == 1 {
        '1'
    } else if d == 2 {
        '2'
    } else if d == 3 {
        '3'
    } else if d == 4 {
        '4'
    } else if d == 5 {
        '5'
    } else if d == 6 {
        '6'
    } else if d == 7 {
        '7'
    } else if d == 8 {
        '8'
    } else {
        '9'
    }
}

/// The decimal digits of `n`, most significant first, with no leading zero
/// except for zero itself.
pub open spec fn dec_digits(n: nat) -> Seq<char>
    decreases n,
{
    if n < 10 {
        seq![digit_char(n)]
    } else {
        dec_digits(n / 10).push(digit_char(n % 10))
    }
}

/// Decimal text of a possibly negative number.
pub open spec fn dec_int(n: int) -> Seq<char> {
    if n < 0 {
        seq!['-'] + dec_digits((-n) as nat)
    } else {
        dec_digits(n as nat)
    }
}

/// The body of a 404 response for a user lookup.
pub open spec fn missing_user_msg(id: int) -> Seq<char> {
    "Couldn't find such a user with id "@ + dec_int(id)
}

/// The body of a 404 response for a post lookup.
pub open spec fn missing_post_msg(id: int) -> Seq<char> {
    "Couldn't find such a post with id "@ + dec_int(id)
}

/// Appends the character of the digit `d`.
fn push_digit(out: &mut String, d: u32)
    requires
        d < 10,
    ensures
        final(out)@ == old(out)@ + seq![digit_char(d as nat)],
{
    proof {
        reveal_strlit("0");
        reveal_strlit("1");
        reveal_strlit("2");
        reveal_strlit("3");
        reveal_strlit("4");
        reveal_strlit("5");
        reveal_strlit("6");
        reveal_strlit("7");
        reveal_strlit("8");
        reveal_strlit("9");
    }
    if d == 0 {
        out.append("0");
    } else if d == 1 {
        out.append("1");
    } else if d == 2 {
        out.append("2");
    } else if d == 3 {
        out.append("3");
    } else if d == 4 {
        out.append("4");
    } else if d == 5 {
        out.append("5");
    } else if d == 6 {
        out.append("6");
    } else if d == 7 {
        out.append("7");
    } else if d == 8 {
        out.append("8");
    } else {
        out.append("9");
    }
}

/// Appends the decimal digits of `n`, most significant first.
fn push_dec_digits(out: &mut String, n: u32)
    ensures
        final(out)@ == old(out)@ + dec_digits(n as nat),
    decreases n,
{
    if n < 10 {
        push_digit(out, n);
    } else {
        push_dec_digits(out, n / 10);
        push_digit(out, n % 10);
        proof {
            assert(old(out)@ + dec_digits((n / 10) as nat) + seq![digit_char((n % 10) as nat)]
                =~= old(out)@ + dec_digits(n as nat));
        }
    }
}

/// Decimal text of `n`, with a leading minus sign when it is negative.
pub fn i32_dec_string(n: i32) -> (r: String)
    ensures
        r@ == dec_int(n as int),
{
    let mut s = String::new();
    if n < 0 {
        proof {
            reveal_strlit("-");
        }
        s.append("-");
        let wide: i64 = -(n as i64);
        proof {
            assert(0 <= wide <= u32::MAX as i64);
        }
        let mag: u32 = wide as u32;
        push_dec_digits(&mut s, mag);
        proof {
            assert(mag as nat == (-(n as int)) as nat);
            assert(s@ =~= dec_int(n as int));
        }
    } else {
        push_dec_digits(&mut s, n as u32);
        proof {
            assert(s@ =~= dec_int(n as int));
        }
    }
    s
}

/// The message of a 404 response naming the missing user id.
pub fn missing_user_message(user_id: i32) -> (r: String)
    ensures
        r@ == missing_user_msg(user_id as int),
{
    let mut s = String::from_str("Couldn't find such a user with id ");
    let num = i32_dec_string(user_id);
    s.append(num.as_str());
    s
}

/// The message of a 404 response naming the missing post id.
pub fn missing_post_message(post_id: i32) -> (r: String)
    ensures
        r@ == missing_post_msg(post_id as int),
{
    let mut s = String::from_str("Couldn't find such a post with id ");
    let num = i32_dec_string(post_id);
    s.append(num.as_str());
    s
}

} // verus!
