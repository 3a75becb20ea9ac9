//! Properties of the parser over all inputs.
use vstd::prelude::*;
use crate::data_type::{DATA_TYPE, resolve_spec};
use crate::parameter::{ParameterError, ParameterModel};
use crate::parser::{parse_spec, remove_blanks};
use crate::scanner::{Phase, ScanModel, initial, is_scope_char, run_from, step_spec};
use crate::text::{eq_ignore_case, is_alnum};

verus! {

/// Scanning `a` then `b` is scanning `a + b`.
pub proof fn lemma_run_append(st: ScanModel, a: Seq<char>, b: Seq<char>)
    ensures
        run_from(st, a + b) == run_from(run_from(st, a), b),
    decreases b.len(),
{
    if b.len() == 0 {
        assert(a + b =~= a);
    } else {
        assert((a + b).drop_last() =~= a + b.drop_last());
        lemma_run_append(st, a, b.drop_last());
    }
}

/// Letters and digits after `$` extend the name and change nothing else.
pub proof fn lemma_run_name(st: ScanModel, n: Seq<char>)
    requires
        !st.failed,
        st.phase == Phase::Name,
        forall|i: int| 0 <= i < n.len() ==> is_alnum(#[trigger] n[i]),
    ensures
        run_from(st, n) == (ScanModel { name: st.name + n, ..st }),
    decreases n.len(),
{
    if n.len() == 0 {
        assert(st.name + n =~= st.name);
    } else {
        lemma_run_name(st, n.drop_last());
        assert(st.name + n =~= (st.name + n.drop_last()).push(n.last()));
    }
}

/// Letters and digits after the name's `=` extend the default literal.
pub proof fn lemma_run_default(st: ScanModel, v: Seq<char>)
    requires
        !st.failed,
        st.phase == Phase::Default,
        forall|i: int| 0 <= i < v.len() ==> is_alnum(#[trigger] v[i]),
    ensures
        run_from(st, v) == (ScanModel { default_buf: st.default_buf + v, ..st }),
    decreases v.len(),
{
    if v.len() == 0 {
        assert(st.default_buf + v =~= st.default_buf);
    } else {
        lemma_run_default(st, v.drop_last());
        assert(st.default_buf + v =~= (st.default_buf + v.drop_last()).push(v.last()));
    }
}

/// Letters and digits inside a section, outside its attribute list, extend
/// the section's token.
pub proof fn lemma_run_section(st: ScanModel, t: Seq<char>)
    requires
        !st.failed,
        st.phase == Phase::Before,
        !st.in_comment,
        st.in_section,
        !st.in_subsection,
        forall|i: int| 0 <= i < t.len() ==> is_alnum(#[trigger] t[i]),
    ensures
        run_from(st, t) == (ScanModel { section_buf: st.section_buf + t, ..st }),
    decreases t.len(),
{
    if t.len() == 0 {
        assert(st.section_buf + t =~= st.section_buf);
    } else {
        lemma_run_section(st, t.drop_last());
        assert(st.section_buf + t =~= (st.section_buf + t.drop_last()).push(t.last()));
    }
}

/// Without a `$` in the characters scanned, `seen_dollar` keeps its value.
pub proof fn lemma_run_no_dollar(st: ScanModel, cs: Seq<char>)
    requires
        forall|i: int| 0 <= i < cs.len() ==> #[trigger] cs[i] != '$',
    ensures
        run_from(st, cs).seen_dollar == st.seen_dollar,
    decreases cs.len(),
{
    if cs.len() > 0 {
        lemma_run_no_dollar(st, cs.drop_last());
    }
}

/// Removing whitespace keeps every remaining character from the input.
pub proof fn lemma_remove_blanks_from_input(p: Seq<char>)
    ensures
        forall|i: int|
            0 <= i < remove_blanks(p).len() ==> exists|j: int|
                0 <= j < p.len() && p[j] == #[trigger] remove_blanks(p)[i],
    decreases p.len(),
{
    if p.len() > 0 {
        lemma_remove_blanks_from_input(p.drop_last());
        let r = remove_blanks(p.drop_last());
        assert forall|i: int| 0 <= i < remove_blanks(p).len() implies exists|j: int|
            0 <= j < p.len() && p[j] == #[trigger] remove_blanks(p)[i] by {
            if i < r.len() {
                let j = choose|j: int| 0 <= j < p.drop_last().len() && p.drop_last()[j] == r[i];
                assert(p[j] == remove_blanks(p)[i]);
            } else {
                assert(p[p.len() - 1] == remove_blanks(p)[i]);
            }
        }
    }
}

/// Declarations that differ only in whitespace parse alike.
pub proof fn lemma_whitespace_insensitive(a: Seq<char>, b: Seq<char>)
    requires
        remove_blanks(a) == remove_blanks(b),
    ensures
        parse_spec(a) == parse_spec(b),
{
}

/// Parsing the same input twice gives equal results.
pub proof fn lemma_parse_repeatable(
    p: Seq<char>,
    r1: Result<ParameterModel, ParameterError>,
    r2: Result<ParameterModel, ParameterError>,
)
    requires
        r1 == parse_spec(p),
        r2 == parse_spec(p),
    ensures
        r1 == r2,
{
}

/// An input without any `$` holds no declaration.
pub proof fn lemma_no_dollar_not_found(p: Seq<char>)
    requires
        forall|i: int| 0 <= i < p.len() ==> #[trigger] p[i] != '$',
    ensures
        parse_spec(p) == Err::<ParameterModel, ParameterError>(ParameterError::NotFound),
{
    lemma_remove_blanks_from_input(p);
    let r = remove_blanks(p);
    assert forall|i: int| 0 <= i < r.len() implies #[trigger] r[i] != '$' by {
        let j = choose|j: int| 0 <= j < p.len() && p[j] == r[i];
    }
    lemma_run_no_dollar(initial(), r);
}

/// The empty type token names no type.
pub proof fn lemma_resolve_empty()
    ensures
        resolve_spec(Seq::empty()) == DATA_TYPE::NONE,
{
    reveal_strlit("string");
    reveal_strlit("int");
    reveal_strlit("int32");
    reveal_strlit("int64");
    reveal_strlit("single");
    reveal_strlit("float");
    reveal_strlit("double");
    reveal_strlit("pscredential");
}

/// The default-value literal for a boolean.
pub open spec fn bool_literal(b: bool) -> Seq<char> {
    if b {
        "true"@
    } else {
        "false"@
    }
}

/// A bare declaration `$Name = true` (or `= false`), whitespace anywhere,
/// gives that name and default, no type, not mandatory, in no set.
pub proof fn lemma_plain_declaration(p: Seq<char>, n: Seq<char>, b: bool)
    requires
        n.len() > 0,
        forall|i: int| 0 <= i < n.len() ==> is_alnum(#[trigger] n[i]),
        remove_blanks(p) == seq!['$'] + n + seq!['='] + bool_literal(b),
    ensures
        parse_spec(p) == Ok::<ParameterModel, ParameterError>(
            ParameterModel {
                name: n,
                data_type: DATA_TYPE::NONE,
                default_value: Some(b),
                mandatory: false,
                parameter_set_name: None,
                help: None,
            },
        ),
{
    reveal_strlit("true");
    reveal_strlit("false");
    let v = bool_literal(b);
    assert(forall|i: int| 0 <= i < v.len() ==> is_alnum(#[trigger] v[i]));
    let s0 = initial();
    let d = seq!['$'];
    let e = seq!['='];
    assert(d.drop_last() =~= Seq::<char>::empty());
    let s1 = run_from(s0, d);
    assert(run_from(s0, d.drop_last()) == s0);
    assert(d.last() == '$');
    assert(s1 == ScanModel { seen_dollar: true, phase: Phase::Name, ..s0 });
    lemma_run_name(s1, n);
    let s2 = run_from(s1, n);
    assert(s1.name + n =~= n);
    assert(e.drop_last() =~= Seq::<char>::empty());
    let s3 = run_from(s2, e);
    assert(run_from(s2, e.drop_last()) == s2);
    assert(e.last() == '=');
    assert(s3 == ScanModel { phase: Phase::Default, ..s2 });
    lemma_run_default(s3, v);
    assert(s3.default_buf + v =~= v);
    lemma_run_append(s0, d, n);
    lemma_run_append(s0, d + n, e);
    lemma_run_append(s0, d + n + e, v);
}

/// A typed declaration `[T] $Name`, with a token `T` of letters and digits,
/// gives the type that `T` resolves to: `NONE` for a token outside the table.
pub proof fn lemma_typed_declaration(p: Seq<char>, t: Seq<char>, n: Seq<char>)
    requires
        n.len() > 0,
        forall|i: int| 0 <= i < n.len() ==> is_alnum(#[trigger] n[i]),
        forall|i: int| 0 <= i < t.len() ==> is_alnum(#[trigger] t[i]),
        remove_blanks(p) == seq!['['] + t + seq![']', '$'] + n,
    ensures
        parse_spec(p) == Ok::<ParameterModel, ParameterError>(
            ParameterModel {
                name: n,
                data_type: resolve_spec(t),
                default_value: None,
                mandatory: false,
                parameter_set_name: None,
                help: None,
            },
        ),
{
    reveal_strlit("parameter");
    reveal_strlit("string");
    reveal_strlit("int");
    reveal_strlit("int32");
    reveal_strlit("int64");
    reveal_strlit("single");
    reveal_strlit("float");
    reveal_strlit("double");
    reveal_strlit("pscredential");
    let s0 = initial();
    let o = seq!['['];
    let c = seq![']', '$'];
    assert(o.drop_last() =~= Seq::<char>::empty());
    let s1 = run_from(s0, o);
    assert(run_from(s0, o.drop_last()) == s0);
    assert(o.last() == '[');
    assert(s1 == ScanModel { in_section: true, ..s0 });
    lemma_run_section(s1, t);
    let s2 = run_from(s1, t);
    assert(s1.section_buf + t =~= t);
    assert(c.drop_last() =~= seq![']']);
    assert(c.drop_last().drop_last() =~= Seq::<char>::empty());
    let s3 = run_from(s2, c);
    assert(run_from(s2, c.drop_last().drop_last()) == s2);
    let s2b = run_from(s2, c.drop_last());
    assert(c.drop_last().last() == ']');
    assert(c.last() == '$');
    if eq_ignore_case(t, "parameter"@) {
        assert(t.len() == 9);
        assert(resolve_spec(t) == DATA_TYPE::NONE);
    }
    assert(s2b == ScanModel { in_section: false, data_type: resolve_spec(t), ..s2 });
    assert(s3 == ScanModel {
        in_section: false,
        data_type: resolve_spec(t),
        seen_dollar: true,
        phase: Phase::Name,
        ..s2
    });
    lemma_run_name(s3, n);
    assert(s3.name + n =~= n);
    lemma_run_append(s0, o, t);
    lemma_run_append(s0, o + t, c);
    lemma_run_append(s0, o + t + c, n);
}

/// Scanning one character is one step.
pub proof fn lemma_run_one(st: ScanModel, c: char)
    ensures
        run_from(st, seq![c]) == step_spec(st, c),
{
    assert(seq![c].drop_last() =~= Seq::<char>::empty());
    assert(run_from(st, Seq::<char>::empty()) == st);
}

/// Once failed, a scan stays failed, and a `$` once seen stays seen.
pub proof fn lemma_run_failed(st: ScanModel, cs: Seq<char>)
    requires
        st.failed,
    ensures
        run_from(st, cs).failed,
        st.seen_dollar ==> run_from(st, cs).seen_dollar,
    decreases cs.len(),
{
    if cs.len() > 0 {
        lemma_run_failed(st, cs.drop_last());
    }
}

/// Letters and digits of an attribute key extend the key.
pub proof fn lemma_run_key(st: ScanModel, t: Seq<char>)
    requires
        !st.failed,
        st.phase == Phase::Before,
        !st.in_comment,
        st.in_subsection,
        !st.in_value,
        forall|i: int| 0 <= i < t.len() ==> is_alnum(#[trigger] t[i]),
    ensures
        run_from(st, t) == (ScanModel { key: st.key + t, ..st }),
    decreases t.len(),
{
    if t.len() == 0 {
        assert(st.key + t =~= st.key);
    } else {
        lemma_run_key(st, t.drop_last());
        assert(st.key + t =~= (st.key + t.drop_last()).push(t.last()));
    }
}

/// Letters and digits of an attribute value extend the value.
pub proof fn lemma_run_value(st: ScanModel, t: Seq<char>)
    requires
        !st.failed,
        st.phase == Phase::Before,
        !st.in_comment,
        st.in_subsection,
        st.in_value,
        forall|i: int| 0 <= i < t.len() ==> is_alnum(#[trigger] t[i]),
    ensures
        run_from(st, t) == (ScanModel { value: st.value + t, ..st }),
    decreases t.len(),
{
    if t.len() == 0 {
        assert(st.value + t =~= st.value);
    } else {
        lemma_run_value(st, t.drop_last());
        assert(st.value + t =~= (st.value + t.drop_last()).push(t.last()));
    }
}

/// `[Parameter(Mandatory=$true)] $Name` (or `$false`), whitespace anywhere,
/// gives that name, marked mandatory or not, with no type and no default.
pub proof fn lemma_mandatory_attribute(p: Seq<char>, n: Seq<char>, m: bool)
    requires
        n.len() > 0,
        forall|i: int| 0 <= i < n.len() ==> is_alnum(#[trigger] n[i]),
        remove_blanks(p) == seq!['['] + "Parameter"@ + seq!['('] + "Mandatory"@ + seq!['=']
            + seq!['$'] + bool_literal(m) + seq![')'] + seq![']'] + seq!['$'] + n,
    ensures
        parse_spec(p) == Ok::<ParameterModel, ParameterError>(
            ParameterModel {
                name: n,
                data_type: DATA_TYPE::NONE,
                default_value: None,
                mandatory: m,
                parameter_set_name: None,
                help: None,
            },
        ),
{
    reveal_strlit("Parameter");
    reveal_strlit("parameter");
    reveal_strlit("Mandatory");
    reveal_strlit("mandatory");
    reveal_strlit("true");
    reveal_strlit("false");
    let pa = "Parameter"@;
    let ma = "Mandatory"@;
    let v = bool_literal(m);
    assert(forall|i: int| 0 <= i < pa.len() ==> is_alnum(#[trigger] pa[i]));
    assert(forall|i: int| 0 <= i < ma.len() ==> is_alnum(#[trigger] ma[i]));
    assert(forall|i: int| 0 <= i < v.len() ==> is_alnum(#[trigger] v[i]));
    assert(eq_ignore_case(pa, "parameter"@));
    assert(eq_ignore_case(ma, "mandatory"@));
    let s0 = initial();
    lemma_run_one(s0, '[');
    let s1 = step_spec(s0, '[');
    lemma_run_section(s1, pa);
    let s2 = run_from(s1, pa);
    assert(s1.section_buf + pa =~= pa);
    lemma_run_one(s2, '(');
    let s3 = step_spec(s2, '(');
    assert(s3.attr_mode);
    lemma_run_key(s3, ma);
    let s4 = run_from(s3, ma);
    assert(s3.key + ma =~= ma);
    lemma_run_one(s4, '=');
    let s5 = step_spec(s4, '=');
    lemma_run_one(s5, '$');
    let s6 = step_spec(s5, '$');
    lemma_run_value(s6, v);
    let s7 = run_from(s6, v);
    assert(s6.value + v =~= v);
    if !m {
        assert(!eq_ignore_case(v, "true"@));
    }
    lemma_run_one(s7, ')');
    let s8 = step_spec(s7, ')');
    assert(s8.mandatory == m && !s8.failed && !s8.in_subsection);
    lemma_run_one(s8, ']');
    let s9 = step_spec(s8, ']');
    lemma_run_one(s9, '$');
    let s10 = step_spec(s9, '$');
    lemma_run_name(s10, n);
    assert(s10.name + n =~= n);
    let a1 = seq!['['];
    let a2 = a1 + pa;
    let a3 = a2 + seq!['('];
    let a4 = a3 + ma;
    let a5 = a4 + seq!['='];
    let a6 = a5 + seq!['$'];
    let a7 = a6 + v;
    let a8 = a7 + seq![')'];
    let a9 = a8 + seq![']'];
    let a10 = a9 + seq!['$'];
    lemma_run_append(s0, a1, pa);
    lemma_run_append(s0, a2, seq!['(']);
    lemma_run_append(s0, a3, ma);
    lemma_run_append(s0, a4, seq!['=']);
    lemma_run_append(s0, a5, seq!['$']);
    lemma_run_append(s0, a6, v);
    lemma_run_append(s0, a7, seq![')']);
    lemma_run_append(s0, a8, seq![']']);
    lemma_run_append(s0, a9, seq!['$']);
    lemma_run_append(s0, a10, n);
}

/// `[Parameter(ParameterSetName=$"Set")] $Name`, with a set name of letters
/// and digits, puts the parameter in that set, not mandatory, untyped.
pub proof fn lemma_parameter_set_attribute(p: Seq<char>, v: Seq<char>, n: Seq<char>)
    requires
        n.len() > 0,
        forall|i: int| 0 <= i < n.len() ==> is_alnum(#[trigger] n[i]),
        forall|i: int| 0 <= i < v.len() ==> is_alnum(#[trigger] v[i]),
        remove_blanks(p) == seq!['['] + "Parameter"@ + seq!['('] + "ParameterSetName"@ + seq!['=']
            + seq!['$'] + seq!['"'] + v + seq!['"'] + seq![')'] + seq![']'] + seq!['$'] + n,
    ensures
        parse_spec(p) == Ok::<ParameterModel, ParameterError>(
            ParameterModel {
                name: n,
                data_type: DATA_TYPE::NONE,
                default_value: None,
                mandatory: false,
                parameter_set_name: Some(v),
                help: None,
            },
        ),
{
    reveal_strlit("Parameter");
    reveal_strlit("parameter");
    reveal_strlit("ParameterSetName");
    reveal_strlit("parametersetname");
    reveal_strlit("mandatory");
    let pa = "Parameter"@;
    let ks = "ParameterSetName"@;
    assert(forall|i: int| 0 <= i < pa.len() ==> is_alnum(#[trigger] pa[i]));
    assert(forall|i: int| 0 <= i < ks.len() ==> is_alnum(#[trigger] ks[i]));
    assert(eq_ignore_case(pa, "parameter"@));
    assert(eq_ignore_case(ks, "parametersetname"@));
    assert(!eq_ignore_case(ks, "mandatory"@));
    let s0 = initial();
    lemma_run_one(s0, '[');
    let s1 = step_spec(s0, '[');
    lemma_run_section(s1, pa);
    let s2 = run_from(s1, pa);
    assert(s1.section_buf + pa =~= pa);
    lemma_run_one(s2, '(');
    let s3 = step_spec(s2, '(');
    assert(s3.attr_mode);
    lemma_run_key(s3, ks);
    let s4 = run_from(s3, ks);
    assert(s3.key + ks =~= ks);
    lemma_run_one(s4, '=');
    let s5 = step_spec(s4, '=');
    lemma_run_one(s5, '$');
    let s6 = step_spec(s5, '$');
    lemma_run_one(s6, '"');
    let s6q = step_spec(s6, '"');
    lemma_run_value(s6q, v);
    let s7 = run_from(s6q, v);
    assert(s6q.value + v =~= v);
    lemma_run_one(s7, '"');
    let s7q = step_spec(s7, '"');
    lemma_run_one(s7q, ')');
    let s8 = step_spec(s7q, ')');
    assert(s8.set_name == Some(v) && !s8.failed && !s8.in_subsection && !s8.mandatory);
    lemma_run_one(s8, ']');
    let s9 = step_spec(s8, ']');
    lemma_run_one(s9, '$');
    let s10 = step_spec(s9, '$');
    lemma_run_name(s10, n);
    assert(s10.name + n =~= n);
    let a1 = seq!['['];
    let a2 = a1 + pa;
    let a3 = a2 + seq!['('];
    let a4 = a3 + ks;
    let a5 = a4 + seq!['='];
    let a6 = a5 + seq!['$'];
    let a6q = a6 + seq!['"'];
    let a7 = a6q + v;
    let a7q = a7 + seq!['"'];
    let a8 = a7q + seq![')'];
    let a9 = a8 + seq![']'];
    let a10 = a9 + seq!['$'];
    lemma_run_append(s0, a1, pa);
    lemma_run_append(s0, a2, seq!['(']);
    lemma_run_append(s0, a3, ks);
    lemma_run_append(s0, a4, seq!['=']);
    lemma_run_append(s0, a5, seq!['$']);
    lemma_run_append(s0, a6, seq!['"']);
    lemma_run_append(s0, a6q, v);
    lemma_run_append(s0, a7, seq!['"']);
    lemma_run_append(s0, a7q, seq![')']);
    lemma_run_append(s0, a8, seq![']']);
    lemma_run_append(s0, a9, seq!['$']);
    lemma_run_append(s0, a10, n);
}

/// `$Name = v` with a literal `v` of letters and digits that is neither
/// `true` nor `false` (ASCII case ignored) fails to parse.
pub proof fn lemma_bad_default(p: Seq<char>, n: Seq<char>, v: Seq<char>)
    requires
        n.len() > 0,
        forall|i: int| 0 <= i < n.len() ==> is_alnum(#[trigger] n[i]),
        forall|i: int| 0 <= i < v.len() ==> is_alnum(#[trigger] v[i]),
        !eq_ignore_case(v, "true"@),
        !eq_ignore_case(v, "false"@),
        remove_blanks(p) == seq!['$'] + n + seq!['='] + v,
    ensures
        parse_spec(p) == Err::<ParameterModel, ParameterError>(ParameterError::FailedToParse),
{
    let s0 = initial();
    lemma_run_one(s0, '$');
    let s1 = step_spec(s0, '$');
    lemma_run_name(s1, n);
    let s2 = run_from(s1, n);
    assert(s1.name + n =~= n);
    lemma_run_one(s2, '=');
    let s3 = step_spec(s2, '=');
    lemma_run_default(s3, v);
    assert(s3.default_buf + v =~= v);
    lemma_run_append(s0, seq!['$'], n);
    lemma_run_append(s0, seq!['$'] + n, seq!['=']);
    lemma_run_append(s0, seq!['$'] + n + seq!['='], v);
}

/// A `$` inside a section that is never closed, as in `[string $Name`,
/// fails to parse.
pub proof fn lemma_unclosed_section(p: Seq<char>, t: Seq<char>, n: Seq<char>)
    requires
        forall|i: int| 0 <= i < t.len() ==> is_alnum(#[trigger] t[i]),
        forall|i: int| 0 <= i < n.len() ==> is_alnum(#[trigger] n[i]),
        remove_blanks(p) == seq!['['] + t + seq!['$'] + n,
    ensures
        parse_spec(p) == Err::<ParameterModel, ParameterError>(ParameterError::FailedToParse),
{
    let s0 = initial();
    lemma_run_one(s0, '[');
    let s1 = step_spec(s0, '[');
    lemma_run_section(s1, t);
    let s2 = run_from(s1, t);
    lemma_run_one(s2, '$');
    let s3 = step_spec(s2, '$');
    lemma_run_section(s3, n);
    lemma_run_append(s0, seq!['['], t);
    lemma_run_append(s0, seq!['['] + t, seq!['$']);
    lemma_run_append(s0, seq!['['] + t + seq!['$'], n);
}

/// A bracket or parenthesis after the name, whatever follows it, fails to
/// parse.
pub proof fn lemma_scope_after_name(p: Seq<char>, n: Seq<char>, c: char, rest: Seq<char>)
    requires
        forall|i: int| 0 <= i < n.len() ==> is_alnum(#[trigger] n[i]),
        is_scope_char(c),
        remove_blanks(p) == seq!['$'] + n + seq![c] + rest,
    ensures
        parse_spec(p) == Err::<ParameterModel, ParameterError>(ParameterError::FailedToParse),
{
    let s0 = initial();
    lemma_run_one(s0, '$');
    let s1 = step_spec(s0, '$');
    lemma_run_name(s1, n);
    let s2 = run_from(s1, n);
    lemma_run_one(s2, c);
    let s3 = step_spec(s2, c);
    assert(s3.failed && s3.seen_dollar);
    lemma_run_failed(s3, rest);
    lemma_run_append(s0, seq!['$'], n);
    lemma_run_append(s0, seq!['$'] + n, seq![c]);
    lemma_run_append(s0, seq!['$'] + n + seq![c], rest);
}

} // verus!
