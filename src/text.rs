use vstd::prelude::*;

verus! {

/// The decimal digit character for `d < 10`.
pub open spec fn digit_char(d: nat) -> char {
    if d == 0 { '0' }
    else if d == 1 { '1' }
    else if d == 2 { '2' }
    else if d == 3 { '3' }
    else if d == 4 { '4' }
    else if d == 5 { '5' }
    else if d == 6 { '6' }
    else if d == 7 { '7' }
    else if d == 8 { '8' }
    else { '9' }
}

/// The decimal rendering of `n`, without sign or leading zeros.
pub open spec fn decimal_of(n: nat) -> Seq<char>
    decreases n,
{
    if n < 10 {
        seq![digit_char(n)]
    } else {
        decimal_of(n / 10) + seq![digit_char(n % 10)]
    }
}

/// The directory key under which a connection's owner is stored.
pub open spec fn client_key_of(id: nat) -> Seq<char> {
    "clients:"@ + decimal_of(id)
}

/// The broker channel on which an instance receives commands.
pub open spec fn worker_channel_of(instance: Seq<char>) -> Seq<char> {
    "workers:"@ + instance
}

fn digit_str(d: usize) -> (r: &'static str)
    requires
        d < 10,
    ensures
        r@ == seq![digit_char(d as nat)],
{
    proof {
        reveal_strlit("0");
        reveal_strlit("1");
        reveal_strlit("2");
        reveal_strlit("3");
        reveal_strlit("4");
        reveal_strlit("5");
        reveal_strlit("6");
        reveal_strlit("7");
        reveal_strlit("8");
        reveal_strlit("9");
    }
    let r = if d == 0 { "0" }
    else if d == 1 { "1" }
    else if d == 2 { "2" }
    else if d == 3 { "3" }
    else if d == 4 { "4" }
    else if d == 5 { "5" }
    else if d == 6 { "6" }
    else if d == 7 { "7" }
    else if d == 8 { "8" }
    else { "9" };
    assert(r@ =~= seq![digit_char(d as nat)]);
    r
}

/// Appends the decimal rendering of `n` to `out`.
pub fn push_decimal(out: &mut String, n: usize)
    ensures
        final(out)@ == old(out)@ + decimal_of(n as nat),
    decreases n,
{
    if n >= 10 {
        push_decimal(out, n / 10);
    }
    out.append(digit_str(n % 10));
    proof {
        assert(old(out)@ + decimal_of(n as nat) =~= out@);
    }
}

/// The decimal rendering of `n`.
pub fn decimal(n: usize) -> (r: String)
    ensures
        r@ == decimal_of(n as nat),
{
    let mut out = String::new();
    push_decimal(&mut out, n);
    assert(out@ =~= decimal_of(n as nat));
    out
}

/// The directory key `clients:<id>` for a connection id.
pub fn client_key(id: usize) -> (r: String)
    ensures
        r@ == client_key_of(id as nat),
{
    let mut out = String::new();
    out.append("clients:");
    push_decimal(&mut out, id);
    assert(out@ =~= client_key_of(id as nat));
    out
}

/// The broker channel `workers:<instance>` of a gateway instance.
pub fn worker_channel(instance: &str) -> (r: String)
    ensures
        r@ == worker_channel_of(instance@),
{
    let mut out = String::new();
    out.append("workers:");
    out.append(instance);
    assert(out@ =~= worker_channel_of(instance@));
    out
}

} // verus!
