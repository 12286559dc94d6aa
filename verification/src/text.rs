use vstd::prelude::*;
use vstd::string::*;

verus! {

/// The character of a decimal digit.
pub open spec fn digit_char(d: nat) -> char {
    if d == 0 {
        '0'
    } else if d == 1 {
        '1'
    } else if d == 2 {
        '2'
    } else if d == 3 {
        '3'
    } else if d == 4 {
        '4'
    } else if d == 5 {
        '5'
    } else if d == 6 {
        '6'
    } else if d == 7 {
        '7'
    } else if d == 8 {
        '8'
    } else {
        '9'
    }
}

/// The decimal digits of `n`, most significant first, without leading zeros.
pub open spec fn decimal(n: nat) -> Seq<char>
    decreases n,
{
    if n < 10 {
        seq![digit_char(n)]
    } else {
        decimal(n / 10).push(digit_char(n % 10))
    }
}

/// A decimal number has one digit exactly when it is below ten.
pub proof fn lemma_decimal_len(n: nat)
    ensures
        decimal(n).len() >= 1,
        decimal(n).len() == 1 <==> n < 10,
    decreases n,
{
    if n >= 10 {
        lemma_decimal_len(n / 10);
    }
}

/// Whether `c` is one of the characters `0` to `9`.
pub open spec fn is_digit(c: char) -> bool {
    48 <= c as int <= 57
}

/// The number a string of decimal digits denotes.
pub open spec fn digits_value(s: Seq<char>) -> int
    decreases s.len(),
{
    if s.len() == 0 {
        0
    } else {
        digits_value(s.drop_last()) * 10 + (s.last() as int - 48)
    }
}

/// The digit characters are `0` to `9` in order.
proof fn lemma_digit_char_value(d: nat)
    requires
        d < 10,
    ensures
        digit_char(d) as int == 48 + d,
{
    assert('0' as int == 48);
    assert('1' as int == 49);
    assert('2' as int == 50);
    assert('3' as int == 51);
    assert('4' as int == 52);
    assert('5' as int == 53);
    assert('6' as int == 54);
    assert('7' as int == 55);
    assert('8' as int == 56);
    assert('9' as int == 57);
}

/// `decimal(n)` is a string of decimal digits that denotes `n`, with no
/// leading zero unless `n` is zero.
pub proof fn lemma_decimal_denotes(n: nat)
    ensures
        forall|i: int| 0 <= i < decimal(n).len() ==> is_digit(#[trigger] decimal(n)[i]),
        digits_value(decimal(n)) == n,
        decimal(n).len() >= 1,
        decimal(n)[0] == '0' ==> n == 0,
    decreases n,
{
    if n < 10 {
        lemma_digit_char_value(n);
        assert(decimal(n).drop_last() =~= Seq::<char>::empty());
        assert(digits_value(decimal(n)) == digits_value(Seq::<char>::empty()) * 10 + (digit_char(n) as int - 48));
    } else {
        lemma_decimal_denotes(n / 10);
        lemma_digit_char_value(n % 10);
        let d = decimal(n);
        assert(d.drop_last() =~= decimal(n / 10));
        assert(d[0] == decimal(n / 10)[0]);
        assert(digits_value(d) == digits_value(decimal(n / 10)) * 10 + (digit_char(n % 10) as int - 48));
    }
}

/// The label of an interval length, such as `20 min`.
pub open spec fn minutes_text_of(minutes: u32) -> Seq<char> {
    decimal(minutes as nat) + seq![' ', 'm', 'i', 'n']
}

/// A countdown value padded with zeros to at least two digits.
pub open spec fn countdown_text_of(seconds: u32) -> Seq<char> {
    if seconds < 10 {
        seq!['0'] + decimal(seconds as nat)
    } else {
        decimal(seconds as nat)
    }
}

fn digit_str(d: u32) -> (s: &'static str)
    requires
        d < 10,
    ensures
        s@ == seq![digit_char(d as nat)],
{
    if d == 0 {
        proof {
            reveal_strlit("0");
        }
        "0"
    } else if d == 1 {
        proof {
            reveal_strlit("1");
        }
        "1"
    } else if d == 2 {
        proof {
            reveal_strlit("2");
        }
        "2"
    } else if d == 3 {
        proof {
            reveal_strlit("3");
        }
        "3"
    } else if d == 4 {
        proof {
            reveal_strlit("4");
        }
        "4"
    } else if d == 5 {
        proof {
            reveal_strlit("5");
        }
        "5"
    } else if d == 6 {
        proof {
            reveal_strlit("6");
        }
        "6"
    } else if d == 7 {
        proof {
            reveal_strlit("7");
        }
        "7"
    } else if d == 8 {
        proof {
            reveal_strlit("8");
        }
        "8"
    } else {
        proof {
            reveal_strlit("9");
        }
        "9"
    }
}

/// Appends the decimal digits of `n` to `text`.
fn push_decimal(text: &mut String, n: u32)
    ensures
        final(text)@ == old(text)@ + decimal(n as nat),
    decreases n,
{
    if n >= 10 {
        push_decimal(text, n / 10);
    }
    text.append(digit_str(n % 10));
    proof {
        if n >= 10 {
            assert(decimal(n as nat) == decimal((n / 10) as nat).push(digit_char((n % 10) as nat)));
            assert(old(text)@ + decimal((n / 10) as nat) + seq![digit_char((n % 10) as nat)] =~= old(
                text,
            )@ + decimal(n as nat));
        } else {
            assert(decimal(n as nat) == seq![digit_char(n as nat)]);
        }
    }
}

/// The label of an interval length: the number of minutes and ` min`.
pub fn minutes_text(minutes: u32) -> (text: String)
    ensures
        text@ == minutes_text_of(minutes),
{
    let mut text = String::new();
    push_decimal(&mut text, minutes);
    proof {
        reveal_strlit(" min");
    }
    text.append(" min");
    proof {
        assert(" min"@ =~= seq![' ', 'm', 'i', 'n']);
    }
    text
}

/// The countdown bubble's number: at least two digits, zero-padded.
pub fn countdown_text(seconds: u32) -> (text: String)
    ensures
        text@ == countdown_text_of(seconds),
{
    let mut text = String::new();
    if seconds < 10 {
        text.append(digit_str(0));
    }
    push_decimal(&mut text, seconds);
    proof {
        assert(seq![digit_char(0)] == seq!['0']);
    }
    text
}


/// The break dialog's subtitle for an interval of `break_minutes` minutes.
pub open spec fn alert_subtitle_of(break_minutes: u32) -> Seq<char> {
    "Your "@ + minutes_text_of(break_minutes) + " timer has finished."@
}

/// The break dialog's subtitle, such as `Your 20 min timer has finished.`
pub fn alert_subtitle_text(break_minutes: u32) -> (text: String)
    ensures
        text@ == alert_subtitle_of(break_minutes),
{
    let mut text = String::from_str("Your ");
    let minutes = minutes_text(break_minutes);
    text.append(minutes.as_str());
    text.append(" timer has finished.");
    text
}

/// The interval label is the number of minutes in decimal digits followed by
/// ` min`.
pub proof fn lemma_minutes_text_denotes(minutes: u32)
    ensures
        ({
            let t = minutes_text_of(minutes);
            &&& t.len() >= 5
            &&& t.subrange(t.len() - 4, t.len() as int) == seq![' ', 'm', 'i', 'n']
            &&& digits_value(t.subrange(0, t.len() - 4)) == minutes
            &&& forall|i: int| 0 <= i < t.len() - 4 ==> is_digit(#[trigger] t[i])
        }),
{
    lemma_decimal_denotes(minutes as nat);
    let t = minutes_text_of(minutes);
    let d = decimal(minutes as nat);
    assert(t.subrange(0, t.len() - 4) =~= d);
    assert(t.subrange(t.len() - 4, t.len() as int) =~= seq![' ', 'm', 'i', 'n']);
}

/// The countdown text is at least two decimal digits denoting the seconds,
/// padded with one leading zero below ten.
pub proof fn lemma_countdown_text_denotes(seconds: u32)
    ensures
        ({
            let t = countdown_text_of(seconds);
            &&& t.len() >= 2
            &&& forall|i: int| 0 <= i < t.len() ==> is_digit(#[trigger] t[i])
            &&& digits_value(t) == seconds
            &&& seconds < 10 <==> t[0] == '0'
        }),
{
    lemma_decimal_denotes(seconds as nat);
    lemma_decimal_len(seconds as nat);
    let t = countdown_text_of(seconds);
    let d = decimal(seconds as nat);
    if seconds < 10 {
        assert(t =~= seq!['0'].push(d[0]));
        assert(t.drop_last() =~= seq!['0']);
        assert(seq!['0'].drop_last() =~= Seq::<char>::empty());
        assert(d.drop_last() =~= Seq::<char>::empty());
        assert(digits_value(seq!['0']) == 0);
        assert(digits_value(t) == digits_value(seq!['0']) * 10 + (d[0] as int - 48));
        assert(digits_value(d) == digits_value(Seq::<char>::empty()) * 10 + (d[0] as int - 48));
        assert(48 <= '0' as int <= 57);
    } else {
        assert(t == d);
        assert(d[0] != '0');
    }
}
} // verus!
