//! Addresses of the four services of the eye-in-desk rig on the local host.

use vstd::prelude::*;

verus! {

/// Port of the projector service.
pub const PROJ_PORT: u16 = 50051;

/// Port of the simulation (web) service.
pub const SIM_PORT: u16 = 50052;

/// Port of the camera service.
pub const CAM_PORT: u16 = 50053;

/// Port of the robot service.
pub const ROBOT_PORT: u16 = 50054;

/// The character of a decimal digit.
pub open spec fn digit_char(d: nat) -> char {
    if d == 0 { '0' }
    else if d == 1 { '1' }
    else if d == 2 { '2' }
    else if d == 3 { '3' }
    else if d == 4 { '4' }
    else if d == 5 { '5' }
    else if d == 6 { '6' }
    else if d == 7 { '7' }
    else if d == 8 { '8' }
    else { '9' }
}

/// The decimal notation of `n`, without leading zeros ("0" for zero).
pub open spec fn decimal(n: nat) -> Seq<char>
    decreases n,
{
    if n < 10 {
        seq![digit_char(n)]
    } else {
        decimal(n / 10).push(digit_char(n % 10))
    }
}

/// The text of the address of a service on the local host.
pub open spec fn local_address_text(port: u16) -> Seq<char> {
    "http://127.0.0.1:"@ + decimal(port as nat)
}

fn push_digit(s: &mut String, d: u16)
    requires
        d < 10,
    ensures
        final(s)@ == old(s)@.push(digit_char(d as nat)),
{
    proof {
        reveal_strlit("0");
        reveal_strlit("1");
        reveal_strlit("2");
        reveal_strlit("3");
        reveal_strlit("4");
        reveal_strlit("5");
        reveal_strlit("6");
        reveal_strlit("7");
        reveal_strlit("8");
        reveal_strlit("9");
    }
    if d == 0 {
        s.append("0");
    } else if d == 1 {
        s.append("1");
    } else if d == 2 {
        s.append("2");
    } else if d == 3 {
        s.append("3");
    } else if d == 4 {
        s.append("4");
    } else if d == 5 {
        s.append("5");
    } else if d == 6 {
        s.append("6");
    } else if d == 7 {
        s.append("7");
    } else if d == 8 {
        s.append("8");
    } else {
        s.append("9");
    }
}

fn push_decimal(s: &mut String, n: u16)
    ensures
        final(s)@ == old(s)@ + decimal(n as nat),
    decreases n,
{
    if n < 10 {
        push_digit(s, n);
        assert(old(s)@.push(digit_char(n as nat)) =~= old(s)@ + decimal(n as nat));
    } else {
        push_decimal(s, n / 10);
        push_digit(s, n % 10);
        assert(old(s)@ + decimal((n / 10) as nat) + seq![digit_char((n % 10) as nat)]
            =~= old(s)@ + decimal(n as nat));
    }
}

/// The address `http://127.0.0.1:<port>` of a service on the local host.
pub fn local_address(port: u16) -> (addr: String)
    ensures
        addr@ == local_address_text(port),
{
    let mut addr = String::from_str("http://127.0.0.1:");
    push_decimal(&mut addr, port);
    addr
}


/// The number that a string of decimal digits denotes, most significant digit first.
pub open spec fn numeral_value(digits: Seq<char>) -> int
    decreases digits.len(),
{
    if digits.len() == 0 {
        0
    } else {
        numeral_value(digits.drop_last()) * 10 + (digits.last() as int - '0' as int)
    }
}

/// `digits` is a numeral in standard decimal notation: one or more of the
/// characters '0' to '9', with no leading zero unless the numeral is "0".
pub open spec fn is_decimal_numeral(digits: Seq<char>) -> bool {
    &&& digits.len() > 0
    &&& forall|i: int| 0 <= i < digits.len() ==> '0' as int <= #[trigger] (digits[i] as int) <= '9' as int
    &&& digits[0] == '0' ==> digits.len() == 1
}

proof fn lemma_digit_char(d: nat)
    requires
        d < 10,
    ensures
        digit_char(d) as int == '0' as int + d,
{
    assert('0' as int == 48);
    assert('9' as int == 57);
}

proof fn lemma_decimal_is_numeral(n: nat)
    ensures
        is_decimal_numeral(decimal(n)),
        numeral_value(decimal(n)) == n,
    decreases n,
{
    if n < 10 {
        lemma_digit_char(n);
        let s = decimal(n);
        assert(numeral_value(Seq::<char>::empty()) == 0);
        assert(s.drop_last() =~= Seq::<char>::empty());
        assert(s.last() == digit_char(n));
    } else {
        lemma_decimal_is_numeral(n / 10);
        lemma_digit_char(n % 10);
        let prefix = decimal(n / 10);
        let s = decimal(n);
        assert(s.drop_last() =~= prefix);
        assert(s[0] == prefix[0]);
        assert(s.last() == digit_char(n % 10));
        if prefix[0] == '0' {
            assert(numeral_value(Seq::<char>::empty()) == 0);
            assert(prefix.drop_last() =~= Seq::<char>::empty());
            assert(numeral_value(prefix) == 0);
        }
        assert forall|i: int| 0 <= i < s.len() implies '0' as int <= #[trigger] (s[i] as int) <= '9' as int by {
            if i < prefix.len() {
                assert(s[i] == prefix[i]);
            }
        }
    }
}

/// The address of a service on the local host is "http://127.0.0.1:" followed
/// by the port written in standard decimal notation.
pub proof fn lemma_local_address_is_port_in_decimal(port: u16)
    ensures
        ({
            let text = local_address_text(port);
            let prefix = "http://127.0.0.1:"@;
            &&& prefix.len() <= text.len()
            &&& text.subrange(0, prefix.len() as int) == prefix
            &&& is_decimal_numeral(text.subrange(prefix.len() as int, text.len() as int))
            &&& numeral_value(text.subrange(prefix.len() as int, text.len() as int)) == port
        }),
{
    let prefix = "http://127.0.0.1:"@;
    let text = local_address_text(port);
    lemma_decimal_is_numeral(port as nat);
    assert(text.subrange(0, prefix.len() as int) =~= prefix);
    assert(text.subrange(prefix.len() as int, text.len() as int) =~= decimal(port as nat));
}

} // verus!
