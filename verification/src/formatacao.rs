//! Decimal rendering of integers, the building block of every date, time and
//! duration text that the e-mails carry.
use vstd::prelude::*;

verus! {

/// The character of a decimal digit.
pub open spec fn digit_char(d: int) -> char {
    if d == 0 {
        '0'
    } else if d == 1 {
        '1'
    } else if d == 2 {
        '2'
    } else if d == 3 {
        '3'
    } else if d == 4 {
        '4'
    } else if d == 5 {
        '5'
    } else if d == 6 {
        '6'
    } else if d == 7 {
        '7'
    } else if d == 8 {
        '8'
    } else {
        '9'
    }
}

/// The decimal digits of `n`, most significant first, without leading zeros
/// (`0` is written as a single `'0'`).
pub open spec fn digitos(n: nat) -> Seq<char>
    decreases n,
{
    if n < 10 {
        seq![digit_char(n as int)]
    } else {
        digitos(n / 10) + seq![digit_char((n % 10) as int)]
    }
}

/// `s` padded on the left with `'0'` up to `largura` characters
/// (what `{:0w$}` and `{:0>w}` do to a decimal number).
pub open spec fn preenche(s: Seq<char>, largura: nat) -> Seq<char> {
    if s.len() >= largura {
        s
    } else {
        Seq::new((largura - s.len()) as nat, |_i: int| '0') + s
    }
}

/// The decimal text of a signed integer, with a leading `'-'` when negative.
pub open spec fn inteiro_texto(v: int) -> Seq<char> {
    if v < 0 {
        seq!['-'] + digitos((-v) as nat)
    } else {
        digitos(v as nat)
    }
}

/// A number written with at least two digits.
pub open spec fn dois_digitos(n: nat) -> Seq<char> {
    preenche(digitos(n), 2)
}

/// The one-character text of a decimal digit.
fn digito_texto(d: u64) -> (r: &'static str)
    requires
        d < 10,
    ensures
        r@ == seq![digit_char(d as int)],
{
    proof {
        reveal_strlit("0");
        reveal_strlit("1");
        reveal_strlit("2");
        reveal_strlit("3");
        reveal_strlit("4");
        reveal_strlit("5");
        reveal_strlit("6");
        reveal_strlit("7");
        reveal_strlit("8");
        reveal_strlit("9");
    }
    if d == 0 {
        "0"
    } else if d == 1 {
        "1"
    } else if d == 2 {
        "2"
    } else if d == 3 {
        "3"
    } else if d == 4 {
        "4"
    } else if d == 5 {
        "5"
    } else if d == 6 {
        "6"
    } else if d == 7 {
        "7"
    } else if d == 8 {
        "8"
    } else {
        "9"
    }
}

/// Appends the decimal digits of `n` to `saida`.
pub fn escreve_digitos(n: u64, saida: &mut String)
    ensures
        final(saida)@ == old(saida)@ + digitos(n as nat),
    decreases n,
{
    if n >= 10 {
        escreve_digitos(n / 10, saida);
    }
    saida.append(digito_texto(n % 10));
    assert(final(saida)@ =~= old(saida)@ + digitos(n as nat));
}

/// Appends the decimal digits of `n`, padded with zeros to `largura`.
pub fn escreve_preenchido(n: u64, largura: u64, saida: &mut String)
    ensures
        final(saida)@ == old(saida)@ + preenche(digitos(n as nat), largura as nat),
{
    let mut digs = String::new();
    escreve_digitos(n, &mut digs);
    let tamanho = digs.as_str().unicode_len();
    let ghost inicio = saida@;
    if (tamanho as u64) < largura {
        let faltam: u64 = largura - tamanho as u64;
        let mut i: u64 = 0;
        while i < faltam
            invariant
                i <= faltam,
                saida@ == inicio + Seq::new(i as nat, |_j: int| '0'),
            decreases faltam - i,
        {
            proof {
                reveal_strlit("0");
            }
            saida.append("0");
            i = i + 1;
            assert(saida@ =~= inicio + Seq::new(i as nat, |_j: int| '0'));
        }
    }
    saida.append(digs.as_str());
    assert(final(saida)@ =~= old(saida)@ + preenche(digitos(n as nat), largura as nat));
}

/// Appends the decimal text of a signed 32-bit integer.
pub fn escreve_inteiro(v: i32, saida: &mut String)
    ensures
        final(saida)@ == old(saida)@ + inteiro_texto(v as int),
{
    if v < 0 {
        proof {
            reveal_strlit("-");
        }
        saida.append("-");
        let abs: i64 = -(v as i64);
        escreve_digitos(abs as u64, saida);
        assert(final(saida)@ =~= old(saida)@ + inteiro_texto(v as int));
    } else {
        escreve_digitos(v as u64, saida);
    }
}

} // verus!
