//! Rendering values as text for `print`.
//!
//! Integers render in decimal, booleans as `true`/`false`, strings as
//! their characters.  A function renders as its name, a reified type as
//! its type text (`int`, `range<s, e>`, ...).  Interned names render from
//! their symbol: `main` by its word, a built-in by its keyword, any other
//! name as its index behind a marker, since the interpreter does not keep
//! the source spelling of identifiers.

use vstd::prelude::*;

use crate::ast::{Name, Prim, TypeName};
use crate::value::Value;

verus! {

/// The decimal digit character for `d` in 0..10.
pub open spec fn digit_char(d: int) -> char {
    if d == 0 {
        '0'
    } else if d == 1 {
        '1'
    } else if d == 2 {
        '2'
    } else if d == 3 {
        '3'
    } else if d == 4 {
        '4'
    } else if d == 5 {
        '5'
    } else if d == 6 {
        '6'
    } else if d == 7 {
        '7'
    } else if d == 8 {
        '8'
    } else {
        '9'
    }
}

/// The decimal digits of `n`, most significant first.
pub open spec fn nat_chars(n: nat) -> Seq<char>
    decreases n,
{
    if n < 10 {
        seq![digit_char(n as int)]
    } else {
        nat_chars(n / 10).push(digit_char((n % 10) as int))
    }
}

/// The decimal rendering of `i`, with a leading minus when negative.
pub open spec fn int_chars(i: int) -> Seq<char> {
    if i < 0 {
        seq!['-'] + nat_chars((-i) as nat)
    } else {
        nat_chars(i as nat)
    }
}

/// The keyword of a built-in callable.
pub open spec fn prim_chars(p: Prim) -> Seq<char> {
    match p {
        Prim::Print => "print"@,
        Prim::If => "if"@,
        Prim::For => "for"@,
        Prim::While => "while"@,
        Prim::Input => "input"@,
    }
}

/// The rendering of an interned name.
pub open spec fn name_chars(n: Name) -> Seq<char> {
    match n {
        Name::Main => "main"@,
        Name::Builtin(p) => prim_chars(p),
        Name::User(k) => seq!['#'] + nat_chars(k as nat),
        Name::Anon(k) => seq!['$'] + nat_chars(k as nat),
    }
}

/// The text of a reified type.
pub open spec fn type_chars(t: TypeName) -> Seq<char> {
    match t {
        TypeName::TInt => "int"@,
        TypeName::TBool => "bool"@,
        TypeName::TString => "string"@,
        TypeName::TVoid => "void"@,
        TypeName::TFunc => "func"@,
        TypeName::TRange(s, e) => "range<"@ + int_chars(s as int) + ", "@ + int_chars(e as int)
            + ">"@,
        TypeName::TCounter(n, s, e) => "counter<"@ + name_chars(n) + ", "@ + int_chars(s as int)
            + ", "@ + int_chars(e as int) + ">"@,
        TypeName::TPrim(p) => prim_chars(p),
        TypeName::TNamed(n) => name_chars(n),
    }
}

/// The rendering of a value that is not a reference.  A deferred
/// comparison is not rendered here: `print` evaluates it to a boolean
/// first.  What remains unprintable renders as a fixed notice.
pub open spec fn shallow_chars(v: Value) -> Seq<char> {
    match v {
        Value::Str(s) => s@,
        Value::Int(i) => int_chars(i as int),
        Value::Bool(b) => if b {
            "true"@
        } else {
            "false"@
        },
        Value::Func(f) => name_chars(f.ident),
        Value::FuncPtr(p) => prim_chars(p),
        Value::Type(t) => type_chars(t),
        Value::CallFunc(c) => name_chars(c.func_name),
        Value::Range(s, e) => "range<"@ + int_chars(s as int) + ", "@ + int_chars(e as int) + ">"@,
        Value::Counter(n, s, e) => "counter<"@ + name_chars(n) + ", "@ + int_chars(s as int)
            + ", "@ + int_chars(e as int) + ">"@,
        _ => "Not printable"@,
    }
}

/// The one-character string for digit `d`.
fn digit_str(d: u64) -> (r: &'static str)
    requires
        d < 10,
    ensures
        r@ == seq![digit_char(d as int)],
{
    proof {
        reveal_strlit("0");
        reveal_strlit("1");
        reveal_strlit("2");
        reveal_strlit("3");
        reveal_strlit("4");
        reveal_strlit("5");
        reveal_strlit("6");
        reveal_strlit("7");
        reveal_strlit("8");
        reveal_strlit("9");
    }
    match d {
        0 => "0",
        1 => "1",
        2 => "2",
        3 => "3",
        4 => "4",
        5 => "5",
        6 => "6",
        7 => "7",
        8 => "8",
        _ => "9",
    }
}

/// Appends the decimal digits of `n` to `out`.
pub fn push_u64_text(n: u64, out: &mut String)
    ensures
        final(out)@ == old(out)@ + nat_chars(n as nat),
    decreases n,
{
    if n < 10 {
        out.append(digit_str(n));
    } else {
        push_u64_text(n / 10, out);
        let ghost mid = out@;
        out.append(digit_str(n % 10));
        proof {
            assert(out@ =~= old(out)@ + nat_chars(n as nat));
        }
    }
}

/// Appends the decimal rendering of `i` to `out`.
pub fn push_int_text(i: i64, out: &mut String)
    ensures
        final(out)@ == old(out)@ + int_chars(i as int),
{
    if i < 0 {
        proof {
            reveal_strlit("-");
        }
        out.append("-");
        let m: u64 = (-(i as i128)) as u64;
        proof {
            assert(m as nat == (-(i as int)) as nat);
        }
        push_u64_text(m, out);
        proof {
            assert(out@ =~= old(out)@ + int_chars(i as int));
        }
    } else {
        push_u64_text(i as u64, out);
    }
}

/// The keyword of a built-in.
pub fn prim_str(p: Prim) -> (r: &'static str)
    ensures
        r@ == prim_chars(p),
{
    match p {
        Prim::Print => "print",
        Prim::If => "if",
        Prim::For => "for",
        Prim::While => "while",
        Prim::Input => "input",
    }
}

/// Appends the rendering of name `n` to `out`.
pub fn push_name_text(n: Name, out: &mut String)
    ensures
        final(out)@ == old(out)@ + name_chars(n),
{
    match n {
        Name::Main => {
            out.append("main");
        },
        Name::Builtin(p) => {
            out.append(prim_str(p));
        },
        Name::User(k) => {
            proof {
                reveal_strlit("#");
            }
            out.append("#");
            push_u64_text(k, out);
            proof {
                assert(out@ =~= old(out)@ + name_chars(n));
            }
        },
        Name::Anon(k) => {
            proof {
                reveal_strlit("$");
            }
            out.append("$");
            push_u64_text(k, out);
            proof {
                assert(out@ =~= old(out)@ + name_chars(n));
            }
        },
    }
}

/// Appends `range<s, e>` or `counter<n, s, e>` text to `out`.
fn push_span_text(name: Option<Name>, s: i64, e: i64, out: &mut String)
    ensures
        match name {
            Option::None => final(out)@ == old(out)@ + ("range<"@ + int_chars(s as int) + ", "@
                + int_chars(e as int) + ">"@),
            Option::Some(n) => final(out)@ == old(out)@ + ("counter<"@ + name_chars(n) + ", "@
                + int_chars(s as int) + ", "@ + int_chars(e as int) + ">"@),
        },
{
    match name {
        Option::None => {
            out.append("range<");
            push_int_text(s, out);
            out.append(", ");
            push_int_text(e, out);
            out.append(">");
            proof {
                assert(out@ =~= old(out)@ + ("range<"@ + int_chars(s as int) + ", "@ + int_chars(
                    e as int,
                ) + ">"@));
            }
        },
        Option::Some(n) => {
            out.append("counter<");
            push_name_text(n, out);
            out.append(", ");
            push_int_text(s, out);
            out.append(", ");
            push_int_text(e, out);
            out.append(">");
            proof {
                assert(out@ =~= old(out)@ + ("counter<"@ + name_chars(n) + ", "@ + int_chars(
                    s as int,
                ) + ", "@ + int_chars(e as int) + ">"@));
            }
        },
    }
}

/// Appends the text of a reified type to `out`.
pub fn push_type_text(t: TypeName, out: &mut String)
    ensures
        final(out)@ == old(out)@ + type_chars(t),
{
    match t {
        TypeName::TInt => {
            out.append("int");
        },
        TypeName::TBool => {
            out.append("bool");
        },
        TypeName::TString => {
            out.append("string");
        },
        TypeName::TVoid => {
            out.append("void");
        },
        TypeName::TFunc => {
            out.append("func");
        },
        TypeName::TRange(s, e) => {
            push_span_text(Option::None, s, e, out);
        },
        TypeName::TCounter(n, s, e) => {
            push_span_text(Option::Some(n), s, e, out);
        },
        TypeName::TPrim(p) => {
            out.append(prim_str(p));
        },
        TypeName::TNamed(n) => {
            push_name_text(n, out);
        },
    }
}

/// Appends the rendering of a non-reference value to `out`.
pub fn push_shallow_text(v: &Value, out: &mut String)
    ensures
        final(out)@ == old(out)@ + shallow_chars(*v),
{
    match v {
        Value::Str(s) => {
            out.append(s.as_str());
        },
        Value::Int(i) => {
            push_int_text(*i, out);
        },
        Value::Bool(b) => {
            if *b {
                out.append("true");
            } else {
                out.append("false");
            }
        },
        Value::Func(f) => {
            push_name_text(f.ident, out);
        },
        Value::FuncPtr(p) => {
            out.append(prim_str(*p));
        },
        Value::Type(t) => {
            push_type_text(*t, out);
        },
        Value::CallFunc(c) => {
            push_name_text(c.func_name, out);
        },
        Value::Range(s, e) => {
            push_span_text(Option::None, *s, *e, out);
        },
        Value::Counter(n, s, e) => {
            push_span_text(Option::Some(*n), *s, *e, out);
        },
        _ => {
            out.append("Not printable");
        },
    }
}

} // verus!
