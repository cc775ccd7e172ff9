//! The source parser: a line-oriented, purely syntactic scanner. This file
//! holds the signature parser: given the trimmed text of a `fn` line it
//! extracts the function name, receiver form, parameters, and return type.
use crate::model::Param;
use crate::model::ParamV;
use crate::model::SelfKind;
use crate::model::Sig;
use crate::model::SigV;
use crate::text::chars_to_string;
use crate::text::find_char;
use crate::text::find_from;
use crate::text::ident_len;
use crate::text::ident_prefix;
use crate::text::lemma_find_from_bounds;
use crate::text::lemma_ident_len_le;
use crate::text::seq_views;
use crate::text::spec_starts_with;
use crate::text::starts_with_lit;
use crate::text::subrange_vec;
use crate::text::trim_ws;
use crate::text::trimmed;
use vstd::prelude::*;

verus! {

/// The line with a leading `pub ` removed, if present.
pub open spec fn strip_pub(t: Seq<char>) -> Seq<char> {
    if spec_starts_with(t, "pub "@) {
        t.skip("pub "@.len() as int)
    } else {
        t
    }
}

pub fn strip_pub_vec(t: &Vec<char>) -> (r: Vec<char>)
    ensures
        r@ == strip_pub(t@),
{
    if starts_with_lit(t, "pub ") {
        let n = "pub ".unicode_len();
        let r = subrange_vec(t, n, t.len());
        proof {
            assert(t@.subrange("pub "@.len() as int, t@.len() as int) =~= t@.skip(
                "pub "@.len() as int,
            ));
        }
        r
    } else {
        let r = subrange_vec(t, 0, t.len());
        proof {
            assert(t@.subrange(0, t@.len() as int) =~= t@);
        }
        r
    }
}

/// Is this (trimmed) line a function declaration line?
pub open spec fn is_fn_line(t: Seq<char>) -> bool {
    spec_starts_with(strip_pub(t), "fn "@)
}

/// The index just past the parenthesis that closes an opening one, given that
/// `d` inner parentheses are currently open.
pub open spec fn find_close_rec(s: Seq<char>, i: int, d: int) -> Option<int>
    decreases s.len() - i,
{
    if i < 0 || i >= s.len() {
        None
    } else if s[i] == ')' && d == 0 {
        Some(i)
    } else if s[i] == ')' {
        find_close_rec(s, i + 1, d - 1)
    } else if s[i] == '(' {
        find_close_rec(s, i + 1, d + 1)
    } else {
        find_close_rec(s, i + 1, d)
    }
}

pub fn find_close_vec(v: &Vec<char>, from: usize) -> (r: Option<usize>)
    requires
        from <= v@.len(),
    ensures
        match r {
            Some(k) => find_close_rec(v@, from as int, 0) == Some(k as int) && from <= k
                < v@.len(),
            None => find_close_rec(v@, from as int, 0) is None,
        },
{
    let mut i: usize = from;
    let mut d: usize = 0;
    while i < v.len()
        invariant
            from <= i <= v@.len(),
            d <= i,
            find_close_rec(v@, from as int, 0) == find_close_rec(v@, i as int, d as int),
        decreases v@.len() - i,
    {
        if v[i] == ')' {
            if d == 0 {
                return Some(i);
            }
            d -= 1;
        } else if v[i] == '(' {
            d += 1;
        }
        i += 1;
    }
    None
}

/// Bracket-nesting change contributed by one character, for comma splitting.
pub open spec fn depth_delta(c: char) -> int {
    if c == '(' || c == '<' || c == '[' {
        1
    } else if c == ')' || c == '>' || c == ']' {
        -1
    } else {
        0
    }
}

/// Split on commas that stand outside any brackets; the scan carries the
/// bracket depth, the piece built so far, and the finished pieces.
pub open spec fn split_args_rec(
    s: Seq<char>,
    i: int,
    d: int,
    cur: Seq<char>,
    acc: Seq<Seq<char>>,
) -> Seq<Seq<char>>
    decreases s.len() - i,
{
    if i < 0 || i >= s.len() {
        acc.push(cur)
    } else if s[i] == ',' && d == 0 {
        split_args_rec(s, i + 1, d, Seq::empty(), acc.push(cur))
    } else {
        split_args_rec(s, i + 1, d + depth_delta(s[i]), cur.push(s[i]), acc)
    }
}

pub open spec fn split_args(s: Seq<char>) -> Seq<Seq<char>> {
    split_args_rec(s, 0, 0, Seq::empty(), Seq::empty())
}

pub fn split_args_vec(v: &Vec<char>) -> (r: Vec<Vec<char>>)
    ensures
        seq_views(r@) == split_args(v@),
{
    let mut acc: Vec<Vec<char>> = Vec::new();
    let mut cur: Vec<char> = Vec::new();
    let mut opens: usize = 0;
    let mut closes: usize = 0;
    let mut i: usize = 0;
    proof {
        assert(seq_views(acc@) =~= Seq::<Seq<char>>::empty());
    }
    while i < v.len()
        invariant
            i <= v@.len(),
            opens <= i,
            closes <= i,
            split_args(v@) == split_args_rec(
                v@,
                i as int,
                opens - closes,
                cur@,
                seq_views(acc@),
            ),
        decreases v@.len() - i,
    {
        let c = v[i];
        if c == ',' && opens == closes {
            let ghost prev = seq_views(acc@);
            let ghost pc = cur@;
            acc.push(cur);
            cur = Vec::new();
            proof {
                assert(seq_views(acc@) =~= prev.push(pc));
            }
        } else {
            if c == '(' || c == '<' || c == '[' {
                opens += 1;
            } else if c == ')' || c == '>' || c == ']' {
                closes += 1;
            }
            cur.push(c);
        }
        i += 1;
    }
    let ghost prev = seq_views(acc@);
    let ghost last = cur@;
    acc.push(cur);
    proof {
        assert(seq_views(acc@) =~= prev.push(last));
    }
    acc
}

/// One comma-separated piece, already trimmed, read as a parameter: the text
/// before the first colon is the name, the text after it the type; a piece
/// with no colon is a bare type.
pub open spec fn parse_param_piece(q: Seq<char>) -> ParamV {
    match find_from(q, 0, ':') {
        Some(k) => ParamV { name: trimmed(q.take(k)), ty: trimmed(q.skip(k + 1)) },
        None => ParamV { name: Seq::empty(), ty: q },
    }
}

pub fn parse_param_vec(q: &Vec<char>) -> (r: Param)
    ensures
        r.deep_view() == parse_param_piece(q@),
{
    match find_char(q, 0, ':') {
        Some(k) => {
            proof {
                lemma_find_from_bounds(q@, 0, ':');
            }
            let qlen = q.len();
            let name_raw = subrange_vec(q, 0, k);
            let ty_raw = subrange_vec(q, k + 1, qlen);
            proof {
                assert(q@.subrange(0, k as int) =~= q@.take(k as int));
                assert(q@.subrange(k + 1, q@.len() as int) =~= q@.skip(k + 1));
            }
            let name_t = trim_ws(&name_raw);
            let ty_t = trim_ws(&ty_raw);
            Param { name: chars_to_string(&name_t), ty: chars_to_string(&ty_t) }
        },
        None => {
            let empty_name: Vec<char> = Vec::new();
            Param { name: chars_to_string(&empty_name), ty: chars_to_string(q) }
        },
    }
}

/// The receiver found so far and the ordinary parameters gathered so far.
pub ghost struct ParamsAccV {
    pub receiver: SelfKind,
    pub params: Seq<ParamV>,
}

/// Walk the comma-separated pieces: `self` forms fix the receiver, everything
/// else (once trimmed, if non-empty) becomes a parameter.
pub open spec fn parse_params_rec(
    parts: Seq<Seq<char>>,
    i: int,
    receiver: SelfKind,
    acc: Seq<ParamV>,
) -> ParamsAccV
    decreases parts.len() - i,
{
    if i < 0 || i >= parts.len() {
        ParamsAccV { receiver, params: acc }
    } else {
        let q = trimmed(parts[i]);
        if q.len() == 0 {
            parse_params_rec(parts, i + 1, receiver, acc)
        } else if q == "self"@ || q == "mut self"@ {
            parse_params_rec(parts, i + 1, SelfKind::ByValue, acc)
        } else if q == "&self"@ {
            parse_params_rec(parts, i + 1, SelfKind::ByRef, acc)
        } else if q == "&mut self"@ {
            parse_params_rec(parts, i + 1, SelfKind::ByMutRef, acc)
        } else {
            parse_params_rec(parts, i + 1, receiver, acc.push(parse_param_piece(q)))
        }
    }
}

pub fn parse_params_vec(parts: &Vec<Vec<char>>) -> (r: (SelfKind, Vec<Param>))
    ensures
        ({
            let out = parse_params_rec(
                seq_views(parts@),
                0,
                SelfKind::NoReceiver,
                Seq::empty(),
            );
            r.0 == out.receiver && r.1.deep_view() == out.params
        }),
{
    let mut receiver = SelfKind::NoReceiver;
    let mut acc: Vec<Param> = Vec::new();
    let mut i: usize = 0;
    let ghost pv = seq_views(parts@);
    proof {
        assert(acc.deep_view() =~= Seq::<ParamV>::empty());
    }
    while i < parts.len()
        invariant
            i <= parts@.len(),
            pv == seq_views(parts@),
            parse_params_rec(pv, 0, SelfKind::NoReceiver, Seq::empty()) == parse_params_rec(
                pv,
                i as int,
                receiver,
                acc.deep_view(),
            ),
        decreases parts@.len() - i,
    {
        let q = trim_ws(&parts[i]);
        if q.len() == 0 {
        } else if crate::text::eq_lit(&q, "self") || crate::text::eq_lit(&q, "mut self") {
            receiver = SelfKind::ByValue;
        } else if crate::text::eq_lit(&q, "&self") {
            receiver = SelfKind::ByRef;
        } else if crate::text::eq_lit(&q, "&mut self") {
            receiver = SelfKind::ByMutRef;
        } else {
            let ghost prev = acc.deep_view();
            let p = parse_param_vec(&q);
            let ghost pdv = p.deep_view();
            acc.push(p);
            proof {
                assert(acc.deep_view() =~= prev.push(pdv));
            }
        }
        i += 1;
    }
    (receiver, acc)
}

/// The textual return type: what follows `->`, cut before any body or
/// semicolon, trimmed.
pub open spec fn ret_type_of(s: Seq<char>) -> Seq<char> {
    let cut1 = match find_from(s, 0, '{') {
        Some(k) => s.take(k),
        None => s,
    };
    let cut2 = match find_from(cut1, 0, ';') {
        Some(k) => cut1.take(k),
        None => cut1,
    };
    trimmed(cut2)
}

pub fn ret_type_vec(s: &Vec<char>) -> (r: Vec<char>)
    ensures
        r@ == ret_type_of(s@),
{
    let cut1 = match find_char(s, 0, '{') {
        Some(k) => {
            proof {
                lemma_find_from_bounds(s@, 0, '{');
            }
            let c = subrange_vec(s, 0, k);
            proof {
                assert(s@.subrange(0, k as int) =~= s@.take(k as int));
            }
            c
        },
        None => {
            let c = subrange_vec(s, 0, s.len());
            proof {
                assert(s@.subrange(0, s@.len() as int) =~= s@);
            }
            c
        },
    };
    let cut2 = match find_char(&cut1, 0, ';') {
        Some(k) => {
            proof {
                lemma_find_from_bounds(cut1@, 0, ';');
            }
            let c = subrange_vec(&cut1, 0, k);
            proof {
                assert(cut1@.subrange(0, k as int) =~= cut1@.take(k as int));
            }
            c
        },
        None => {
            let c = subrange_vec(&cut1, 0, cut1.len());
            proof {
                assert(cut1@.subrange(0, cut1@.len() as int) =~= cut1@);
            }
            c
        },
    };
    trim_ws(&cut2)
}

/// The signature read from a (trimmed) `fn` line: `None` when the line has no
/// function name or no parameter list.
pub open spec fn parse_sig(t: Seq<char>) -> Option<SigV> {
    let rest = strip_pub(t).skip("fn "@.len() as int);
    let nlen = ident_len(rest);
    if nlen == 0 {
        None
    } else {
        let name = rest.take(nlen as int);
        let after = rest.skip(nlen as int);
        if after.len() == 0 || after[0] != '(' {
            None
        } else {
            match find_close_rec(after, 1, 0) {
                None => None,
                Some(j) => {
                    let inner = after.subrange(1, j);
                    let pa = parse_params_rec(
                        split_args(inner),
                        0,
                        SelfKind::NoReceiver,
                        Seq::empty(),
                    );
                    let tail = trimmed(after.skip(j + 1));
                    let ret = if spec_starts_with(tail, "->"@) {
                        Some(ret_type_of(tail.skip("->"@.len() as int)))
                    } else {
                        None
                    };
                    Some(SigV { name, receiver: pa.receiver, params: pa.params, ret })
                },
            }
        }
    }
}

pub fn parse_sig_vec(t: &Vec<char>) -> (r: Option<Sig>)
    requires
        is_fn_line(t@),
    ensures
        r.deep_view() == parse_sig(t@),
{
    let t1 = strip_pub_vec(t);
    let n_fn = "fn ".unicode_len();
    let rest = subrange_vec(&t1, n_fn, t1.len());
    proof {
        assert(t1@.subrange("fn "@.len() as int, t1@.len() as int) =~= t1@.skip(
            "fn "@.len() as int,
        ));
    }
    let name_v = ident_prefix(&rest);
    proof {
        lemma_ident_len_le(rest@);
    }
    if name_v.len() == 0 {
        return None;
    }
    let nlen = name_v.len();
    let after = subrange_vec(&rest, nlen, rest.len());
    proof {
        assert(rest@.subrange(nlen as int, rest@.len() as int) =~= rest@.skip(nlen as int));
    }
    if after.len() == 0 {
        return None;
    }
    if after[0] != '(' {
        return None;
    }
    match find_close_vec(&after, 1) {
        None => None,
        Some(j) => {
            let inner = subrange_vec(&after, 1, j);
            let parts = split_args_vec(&inner);
            let (receiver, params) = parse_params_vec(&parts);
            let tail_raw = subrange_vec(&after, j + 1, after.len());
            proof {
                assert(after@.subrange(j + 1, after@.len() as int) =~= after@.skip(j + 1));
            }
            let tail = trim_ws(&tail_raw);
            let ret: Option<String> = if starts_with_lit(&tail, "->") {
                let n_arrow = "->".unicode_len();
                let rest2 = subrange_vec(&tail, n_arrow, tail.len());
                proof {
                    assert(tail@.subrange("->"@.len() as int, tail@.len() as int) =~= tail@.skip(
                        "->"@.len() as int,
                    ));
                }
                let rt = ret_type_vec(&rest2);
                Some(chars_to_string(&rt))
            } else {
                None
            };
            let sig = Sig { name: chars_to_string(&name_v), receiver, params, ret };
            Some(sig)
        },
    }
}

} // verus!
