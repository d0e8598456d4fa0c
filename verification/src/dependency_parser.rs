use vstd::prelude::*;

use crate::errors::BuildError;

verus! {

// A dependency manifest is one Makefile-style prerequisite line, such as
//
//     target: a.h b.h dir/with\ space.h \
//       next-line.h
//
// Everything up to and including the first `:` is the target and is
// discarded, a run of spaces after it is the delimiter, and the rest is a
// list of paths separated by unescaped spaces. `\ ` stands for a literal
// space, `\\` for a literal backslash, and `\` before a newline joins two
// physical lines; a backslash before any other character is an error.

/// The suffix of `s` after the first `:`, or empty when there is none.
pub open spec fn spec_after_colon(s: Seq<char>) -> Seq<char>
    decreases s.len(),
{
    if s.len() == 0 {
        s
    } else if s[0] == ':' {
        s.skip(1)
    } else {
        spec_after_colon(s.skip(1))
    }
}

/// The suffix of `s` after its leading run of spaces.
pub open spec fn spec_skip_spaces(s: Seq<char>) -> Seq<char>
    decreases s.len(),
{
    if s.len() == 0 {
        s
    } else if s[0] == ' ' {
        spec_skip_spaces(s.skip(1))
    } else {
        s
    }
}

/// One pass of the tokenizer over `s`, with `cur` the token accumulated so
/// far and `acc` the tokens already emitted. An unescaped space ends a token
/// (empty tokens are not emitted), escapes are resolved as the module
/// comment says, a bare newline contributes nothing, and the final token is
/// always emitted, even when empty. `Err` carries the character that
/// followed a lone backslash.
pub open spec fn spec_tokenize(s: Seq<char>, cur: Seq<char>, acc: Seq<Seq<char>>) -> Result<
    Seq<Seq<char>>,
    char,
>
    decreases s.len(),
{
    if s.len() == 0 {
        Ok(acc.push(cur))
    } else if s[0] == ' ' {
        if cur.len() == 0 {
            spec_tokenize(s.skip(1), cur, acc)
        } else {
            spec_tokenize(s.skip(1), Seq::empty(), acc.push(cur))
        }
    } else if s[0] == '\\' {
        if s.len() == 1 {
            Ok(acc.push(cur))
        } else if s[1] == '\\' {
            spec_tokenize(s.skip(2), cur.push('\\'), acc)
        } else if s[1] == ' ' {
            spec_tokenize(s.skip(2), cur.push(' '), acc)
        } else if s[1] == '\n' {
            spec_tokenize(s.skip(2), cur, acc)
        } else {
            Err(s[1])
        }
    } else if s[0] == '\n' {
        spec_tokenize(s.skip(1), cur, acc)
    } else {
        spec_tokenize(s.skip(1), cur.push(s[0]), acc)
    }
}

/// What [`parse`] returns: the prerequisite paths of the manifest `s`, in
/// order, or the character of an invalid escape.
pub open spec fn spec_parse(s: Seq<char>) -> Result<Seq<Seq<char>>, char> {
    spec_tokenize(spec_skip_spaces(spec_after_colon(s)), Seq::empty(), Seq::empty())
}

/// Relies on `String::from_iter` over `char`: collecting characters yields
/// the string of exactly those characters, in order.
#[verifier::external_body]
fn chars_to_string(v: &Vec<char>) -> (r: String)
    ensures
        r@ == v@,
{
    v.iter().collect()
}

proof fn lemma_after_colon_no_hit(s: Seq<char>, i: int)
    requires
        0 <= i <= s.len(),
        forall|j: int| 0 <= j < i ==> s[j] != ':',
    ensures
        spec_after_colon(s) == spec_after_colon(s.skip(i)),
    decreases i,
{
    if i > 0 {
        assert(s.skip(1).skip(i - 1) =~= s.skip(i));
        lemma_after_colon_no_hit(s.skip(1), i - 1);
    } else {
        assert(s.skip(0) =~= s);
    }
}

/// Parses a dependency manifest into the list of prerequisite paths it
/// names, in order. Duplicates are permitted and preserved. Fails, naming
/// the offending character, when a backslash is followed by anything other
/// than `\`, a space, or a newline.
pub fn parse(manifest: &str) -> (r: Result<Vec<String>, BuildError>)
    ensures
        match spec_parse(manifest@) {
            Ok(toks) => r matches Ok(v) && v.deep_view() == toks,
            Err(c) => r == Err::<Vec<String>, BuildError>(BuildError::InvalidEscape(c)),
        },
{
    let n = manifest.unicode_len();
    // Discard the target: everything up to and including the first `:`.
    let mut i: usize = 0;
    while i < n && manifest.get_char(i) != ':'
        invariant
            i <= n,
            n == manifest@.len(),
            forall|j: int| 0 <= j < i ==> manifest@[j] != ':',
        decreases n - i,
    {
        i = i + 1;
    }
    proof {
        lemma_after_colon_no_hit(manifest@, i as int);
    }
    if i < n {
        i = i + 1;
        proof {
            assert(manifest@.skip(i - 1).skip(1) =~= manifest@.skip(i as int));
        }
    } else {
        proof {
            assert(manifest@.skip(i as int).len() == 0);
        }
    }
    let ghost after_colon = manifest@.skip(i as int);
    assert(spec_after_colon(manifest@) == after_colon);
    // Discard the delimiter: a run of spaces.
    let ghost c0 = i as int;
    while i < n && manifest.get_char(i) == ' '
        invariant
            c0 <= i <= n,
            n == manifest@.len(),
            after_colon == manifest@.skip(c0),
            spec_skip_spaces(after_colon) == spec_skip_spaces(manifest@.skip(i as int)),
        decreases n - i,
    {
        proof {
            let t = manifest@.skip(i as int);
            assert(t[0] == ' ');
            assert(t.skip(1) =~= manifest@.skip(i + 1));
        }
        i = i + 1;
    }
    let ghost body = manifest@.skip(i as int);
    proof {
        if i < n {
            assert(body[0] != ' ');
        } else {
            assert(body.len() == 0);
        }
        assert(spec_skip_spaces(body) == body);
        assert(spec_skip_spaces(after_colon) == body);
    }
    // Tokenize the prerequisite list.
    let mut cur: Vec<char> = Vec::new();
    let mut out: Vec<String> = Vec::new();
    proof {
        assert(cur@ =~= Seq::<char>::empty());
        assert(out.deep_view() =~= Seq::<Seq<char>>::empty());
        assert(spec_parse(manifest@) == spec_tokenize(
            body,
            Seq::<char>::empty(),
            Seq::<Seq<char>>::empty(),
        ));
    }
    while i < n
        invariant
            i <= n,
            n == manifest@.len(),
            spec_tokenize(manifest@.skip(i as int), cur@, out.deep_view()) == spec_parse(
                manifest@,
            ),
        decreases n - i,
    {
        let ghost rest = manifest@.skip(i as int);
        proof {
            assert(rest[0] == manifest@[i as int]);
            assert(rest.skip(1) =~= manifest@.skip(i + 1));
        }
        let c = manifest.get_char(i);
        if c == ' ' {
            if cur.len() == 0 {
                i = i + 1;
            } else {
                let ghost prev = out.deep_view();
                let token = chars_to_string(&cur);
                out.push(token);
                proof {
                    assert(out.deep_view() =~= prev.push(cur@));
                }
                cur = Vec::new();
                i = i + 1;
            }
        } else if c == '\\' {
            if i + 1 == n {
                i = i + 1;
                proof {
                    assert(manifest@.skip(i as int).len() == 0);
                }
            } else {
                proof {
                    assert(rest.len() >= 2);
                    assert(rest[1] == manifest@[i + 1]);
                    assert(rest.skip(2) =~= manifest@.skip(i + 2));
                }
                let d = manifest.get_char(i + 1);
                if d == '\\' {
                    cur.push('\\');
                    i = i + 2;
                } else if d == ' ' {
                    cur.push(' ');
                    i = i + 2;
                } else if d == '\n' {
                    i = i + 2;
                } else {
                    return Err(BuildError::InvalidEscape(d));
                }
            }
        } else if c == '\n' {
            i = i + 1;
        } else {
            cur.push(c);
            i = i + 1;
        }
    }
    proof {
        assert(manifest@.skip(n as int).len() == 0);
    }
    let ghost prev = out.deep_view();
    let token = chars_to_string(&cur);
    out.push(token);
    proof {
        assert(out.deep_view() =~= prev.push(cur@));
    }
    Ok(out)
}

/// True when no character of `t` is a newline. A parsed token never holds
/// one, and only such tokens can be re-serialized faithfully.
pub open spec fn no_newline(t: Seq<char>) -> bool {
    forall|i: int| 0 <= i < t.len() ==> t[i] != '\n'
}

/// The shape every [`parse`] result has: at least one token, no newline in
/// any token, and only the last token possibly empty.
pub open spec fn tokens_wf(toks: Seq<Seq<char>>) -> bool {
    &&& toks.len() >= 1
    &&& forall|i: int| 0 <= i < toks.len() ==> no_newline(#[trigger] toks[i])
    &&& forall|i: int| 0 <= i < toks.len() - 1 ==> (#[trigger] toks[i]).len() > 0
}

/// `t` with every backslash doubled and every space preceded by a
/// backslash: the escaping under which [`parse`] reads back exactly `t`.
pub open spec fn spec_escape_token(t: Seq<char>) -> Seq<char>
    decreases t.len(),
{
    if t.len() == 0 {
        t
    } else {
        let head = if t[0] == '\\' {
            seq!['\\', '\\']
        } else if t[0] == ' ' {
            seq!['\\', ' ']
        } else {
            seq![t[0]]
        };
        head + spec_escape_token(t.skip(1))
    }
}

/// The escaped tokens joined by single spaces.
pub open spec fn spec_join_escaped(toks: Seq<Seq<char>>) -> Seq<char>
    decreases toks.len(),
{
    if toks.len() == 0 {
        Seq::empty()
    } else if toks.len() == 1 {
        spec_escape_token(toks[0])
    } else {
        spec_escape_token(toks[0]) + seq![' '] + spec_join_escaped(toks.skip(1))
    }
}

/// A manifest (with an empty target) whose prerequisite list reads back as
/// `toks`.
pub open spec fn spec_render(toks: Seq<Seq<char>>) -> Seq<char> {
    seq![':', ' '] + spec_join_escaped(toks)
}

/// Serializes a dependency list as one manifest line, escaping spaces and
/// backslashes as [`parse`] expects them.
pub fn render_manifest(deps: &Vec<String>) -> (r: String)
    ensures
        r@ == spec_render(deps.deep_view()),
{
    proof {
        reveal_strlit(": ");
        reveal_strlit(" ");
        assert(": "@ =~= seq![':', ' ']);
        assert(" "@ =~= seq![' ']);
    }
    let mut r = String::from_str(": ");
    let mut k: usize = 0;
    while k < deps.len()
        invariant
            k <= deps.len(),
            r@ == seq![':', ' '] + spec_join_escaped(deps.deep_view().take(k as int)),
        decreases deps.len() - k,
    {
        proof {
            reveal_strlit(" ");
            assert(" "@ =~= seq![' ']);
        }
        if k > 0 {
            r.append(" ");
        }
        let escaped = escape_token(&deps[k]);
        r.append(escaped.as_str());
        proof {
            let dv = deps.deep_view();
            assert(dv.take(k as int).push(dv[k as int]) =~= dv.take(k + 1));
            if k == 0 {
                assert(dv.take(1) =~= seq![dv[0]]);
                assert(spec_join_escaped(dv.take(0)) =~= Seq::<char>::empty());
                assert(spec_join_escaped(seq![dv[0]]) == spec_escape_token(dv[0]));
            } else {
                lemma_join_snoc(dv.take(k as int), dv[k as int]);
            }
            assert(dv[k as int] == deps[k as int]@);
        }
        k = k + 1;
    }
    proof {
        assert(deps.deep_view().take(deps@.len() as int) =~= deps.deep_view());
    }
    r
}

proof fn lemma_join_snoc(toks: Seq<Seq<char>>, t: Seq<char>)
    requires
        toks.len() >= 1,
    ensures
        spec_join_escaped(toks.push(t)) == spec_join_escaped(toks) + seq![' ']
            + spec_escape_token(t),
    decreases toks.len(),
{
    if toks.len() == 1 {
        let p = toks.push(t);
        assert(p.len() == 2);
        assert(p[0] == toks[0]);
        assert(p.skip(1) =~= seq![t]);
        assert(spec_join_escaped(seq![t]) == spec_escape_token(t));
        assert(spec_join_escaped(toks.push(t)) =~= spec_join_escaped(toks) + seq![' ']
            + spec_escape_token(t));
    } else {
        let p = toks.push(t);
        assert(p.skip(1) =~= toks.skip(1).push(t));
        lemma_join_snoc(toks.skip(1), t);
        assert(spec_join_escaped(toks.push(t)) =~= spec_join_escaped(toks) + seq![' ']
            + spec_escape_token(t));
    }
}

/// Escapes one token as [`spec_escape_token`] describes.
fn escape_token(t: &String) -> (r: String)
    ensures
        r@ == spec_escape_token(t@),
{
    let s = t.as_str();
    let n = s.unicode_len();
    let mut out: Vec<char> = Vec::new();
    proof {
        assert(out@ =~= Seq::<char>::empty());
        lemma_escape_take_empty(s@);
    }
    let mut i: usize = 0;
    while i < n
        invariant
            i <= n,
            n == s@.len(),
            s@ == t@,
            out@ == spec_escape_token(s@.take(i as int)),
        decreases n - i,
    {
        let c = s.get_char(i);
        if c == '\\' {
            out.push('\\');
            out.push('\\');
        } else if c == ' ' {
            out.push('\\');
            out.push(' ');
        } else {
            out.push(c);
        }
        proof {
            lemma_escape_take_step(s@, i as int);
        }
        i = i + 1;
    }
    proof {
        assert(s@.take(n as int) =~= s@);
    }
    chars_to_string(&out)
}

proof fn lemma_escape_take_empty(s: Seq<char>)
    ensures
        spec_escape_token(s.take(0)) == Seq::<char>::empty(),
{
    assert(s.take(0) =~= Seq::<char>::empty());
}

proof fn lemma_escape_snoc(t: Seq<char>, c: char)
    ensures
        spec_escape_token(t.push(c)) == spec_escape_token(t) + (
        if c == '\\' {
            seq!['\\', '\\']
        } else if c == ' ' {
            seq!['\\', ' ']
        } else {
            seq![c]
        }),
    decreases t.len(),
{
    let head_of = |d: char| if d == '\\' {
        seq!['\\', '\\']
    } else if d == ' ' {
        seq!['\\', ' ']
    } else {
        seq![d]
    };
    if t.len() == 0 {
        assert(t.push(c)[0] == c);
        assert(t.push(c).skip(1) =~= Seq::<char>::empty());
        assert(spec_escape_token(t.push(c)) == head_of(c) + spec_escape_token(
            Seq::<char>::empty(),
        ));
        assert(spec_escape_token(t.push(c)) =~= spec_escape_token(t) + head_of(c));
    } else {
        assert(t.push(c)[0] == t[0]);
        assert(t.push(c).skip(1) =~= t.skip(1).push(c));
        lemma_escape_snoc(t.skip(1), c);
        assert(spec_escape_token(t.push(c)) == head_of(t[0]) + spec_escape_token(
            t.skip(1).push(c),
        ));
        assert(spec_escape_token(t) == head_of(t[0]) + spec_escape_token(t.skip(1)));
        assert(spec_escape_token(t.push(c)) =~= spec_escape_token(t) + head_of(c));
    }
}

proof fn lemma_tokenize_wf(s: Seq<char>, cur: Seq<char>, acc: Seq<Seq<char>>)
    requires
        no_newline(cur),
        forall|i: int| 0 <= i < acc.len() ==> no_newline(#[trigger] acc[i]),
        forall|i: int| 0 <= i < acc.len() ==> (#[trigger] acc[i]).len() > 0,
    ensures
        match spec_tokenize(s, cur, acc) {
            Ok(toks) => tokens_wf(toks),
            Err(_) => true,
        },
    decreases s.len(),
{
    if s.len() == 0 {
    } else if s[0] == ' ' {
        if cur.len() == 0 {
            lemma_tokenize_wf(s.skip(1), cur, acc);
        } else {
            let acc2 = acc.push(cur);
            assert(forall|i: int| 0 <= i < acc2.len() ==> no_newline(#[trigger] acc2[i]));
            assert(forall|i: int| 0 <= i < acc2.len() ==> (#[trigger] acc2[i]).len() > 0);
            lemma_tokenize_wf(s.skip(1), Seq::empty(), acc2);
        }
    } else if s[0] == '\\' {
        if s.len() == 1 {
        } else if s[1] == '\\' {
            lemma_tokenize_wf(s.skip(2), cur.push('\\'), acc);
        } else if s[1] == ' ' {
            lemma_tokenize_wf(s.skip(2), cur.push(' '), acc);
        } else if s[1] == '\n' {
            lemma_tokenize_wf(s.skip(2), cur, acc);
        } else {
        }
    } else if s[0] == '\n' {
        lemma_tokenize_wf(s.skip(1), cur, acc);
    } else {
        lemma_tokenize_wf(s.skip(1), cur.push(s[0]), acc);
    }
}

/// Law: whatever [`parse`] returns has the shape of [`tokens_wf`]: at least
/// one token, none holding a newline, and only the last possibly empty.
pub proof fn lemma_parse_wf(s: Seq<char>)
    ensures
        match spec_parse(s) {
            Ok(toks) => tokens_wf(toks),
            Err(_) => true,
        },
{
    lemma_tokenize_wf(
        spec_skip_spaces(spec_after_colon(s)),
        Seq::empty(),
        Seq::<Seq<char>>::empty(),
    );
}

proof fn lemma_tokenize_escaped(t: Seq<char>, rest: Seq<char>, cur: Seq<char>, acc: Seq<Seq<char>>)
    requires
        no_newline(t),
    ensures
        spec_tokenize(spec_escape_token(t) + rest, cur, acc) == spec_tokenize(rest, cur + t, acc),
    decreases t.len(),
{
    if t.len() == 0 {
        assert(spec_escape_token(t) + rest =~= rest);
        assert(cur + t =~= cur);
    } else {
        let c = t[0];
        let tail = spec_escape_token(t.skip(1)) + rest;
        let s = spec_escape_token(t) + rest;
        assert(forall|i: int| 0 <= i < t.skip(1).len() ==> t.skip(1)[i] == t[i + 1]);
        if c == '\\' {
            assert(s =~= seq!['\\', '\\'] + tail);
            assert(s[0] == '\\' && s[1] == '\\' && s.len() >= 2);
            assert(s.skip(2) =~= tail);
            lemma_tokenize_escaped(t.skip(1), rest, cur.push('\\'), acc);
            assert(cur.push('\\') + t.skip(1) =~= cur + t);
        } else if c == ' ' {
            assert(s =~= seq!['\\', ' '] + tail);
            assert(s[0] == '\\' && s[1] == ' ' && s.len() >= 2);
            assert(s.skip(2) =~= tail);
            lemma_tokenize_escaped(t.skip(1), rest, cur.push(' '), acc);
            assert(cur.push(' ') + t.skip(1) =~= cur + t);
        } else {
            assert(c != '\n');
            assert(s =~= seq![c] + tail);
            assert(s[0] == c && s.len() >= 1);
            assert(s.skip(1) =~= tail);
            lemma_tokenize_escaped(t.skip(1), rest, cur.push(c), acc);
            assert(cur.push(c) + t.skip(1) =~= cur + t);
        }
    }
}

proof fn lemma_tokenize_render(toks: Seq<Seq<char>>, acc: Seq<Seq<char>>)
    requires
        tokens_wf(toks),
    ensures
        spec_tokenize(spec_join_escaped(toks), Seq::empty(), acc) == Ok::<Seq<Seq<char>>, char>(
            acc + toks,
        ),
    decreases toks.len(),
{
    if toks.len() == 1 {
        lemma_tokenize_escaped(toks[0], Seq::empty(), Seq::empty(), acc);
        assert(spec_escape_token(toks[0]) + Seq::<char>::empty() =~= spec_join_escaped(toks));
        assert(Seq::<char>::empty() + toks[0] =~= toks[0]);
        assert(acc.push(toks[0]) =~= acc + toks);
    } else {
        let after = seq![' '] + spec_join_escaped(toks.skip(1));
        lemma_tokenize_escaped(toks[0], after, Seq::empty(), acc);
        assert(spec_escape_token(toks[0]) + after =~= spec_join_escaped(toks));
        assert(Seq::<char>::empty() + toks[0] =~= toks[0]);
        // An unescaped space after a non-empty current token emits it.
        assert(after[0] == ' ');
        assert(toks[0].len() > 0);
        assert(after.skip(1) =~= spec_join_escaped(toks.skip(1)));
        assert(forall|i: int|
            0 <= i < toks.skip(1).len() ==> toks.skip(1)[i] == toks[i + 1]);
        assert(tokens_wf(toks.skip(1)));
        lemma_tokenize_render(toks.skip(1), acc.push(toks[0]));
        assert(acc.push(toks[0]) + toks.skip(1) =~= acc + toks);
    }
}

/// Law: parsing is idempotent on its output list. Whenever `parse` accepts a
/// manifest and returns a list of paths, re-serializing that list with the
/// same escaping and re-parsing yields the identical list.
pub proof fn lemma_parse_round_trip(s: Seq<char>)
    ensures
        match spec_parse(s) {
            Ok(toks) => spec_parse(spec_render(toks)) == Ok::<Seq<Seq<char>>, char>(toks),
            Err(_) => true,
        },
{
    if let Ok(toks) = spec_parse(s) {
        lemma_parse_wf(s);
        lemma_render_parses(toks);
    }
}

/// Law: [`render_manifest`] output is always accepted by [`parse`], and
/// parses back to exactly the list it was rendered from, for every list of
/// the shape [`tokens_wf`] that a parse can produce.
pub proof fn lemma_render_parses(toks: Seq<Seq<char>>)
    requires
        tokens_wf(toks),
    ensures
        spec_parse(spec_render(toks)) == Ok::<Seq<Seq<char>>, char>(toks),
{
    let r = spec_render(toks);
    let join = spec_join_escaped(toks);
    assert(r[0] == ':');
    assert(r.skip(1) =~= seq![' '] + join);
    assert(spec_after_colon(r) == seq![' '] + join);
    let sp = seq![' '] + join;
    assert(sp[0] == ' ');
    assert(sp.skip(1) =~= join);
    assert(spec_skip_spaces(sp) == spec_skip_spaces(join));
    if toks[0].len() == 0 {
        assert(toks.len() == 1);
        assert(join == spec_escape_token(toks[0]));
        assert(join.len() == 0);
        assert(spec_skip_spaces(join) == join);
    } else {
        assert(spec_escape_token(toks[0]).len() > 0);
        if toks.len() == 1 {
            assert(join == spec_escape_token(toks[0]));
        } else {
            assert(join[0] == spec_escape_token(toks[0])[0]);
        }
        let h = toks[0][0];
        assert(spec_escape_token(toks[0])[0] == (if h == '\\' || h == ' ' {
            '\\'
        } else {
            h
        }));
        assert(join[0] != ' ');
        assert(spec_skip_spaces(join) == join);
    }
    lemma_tokenize_render(toks, Seq::<Seq<char>>::empty());
    assert(Seq::<Seq<char>>::empty() + toks =~= toks);
}

/// Whether `s` holds a lone backslash followed by a character other than
/// `\`, a space, or a newline — the one malformation the tokenizer rejects.
pub open spec fn spec_has_bad_escape(s: Seq<char>) -> bool
    decreases s.len(),
{
    if s.len() == 0 {
        false
    } else if s[0] == '\\' {
        if s.len() == 1 {
            false
        } else if s[1] == '\\' || s[1] == ' ' || s[1] == '\n' {
            spec_has_bad_escape(s.skip(2))
        } else {
            true
        }
    } else {
        spec_has_bad_escape(s.skip(1))
    }
}

proof fn lemma_tokenize_err_iff_bad_escape(s: Seq<char>, cur: Seq<char>, acc: Seq<Seq<char>>)
    ensures
        spec_tokenize(s, cur, acc) is Err <==> spec_has_bad_escape(s),
    decreases s.len(),
{
    if s.len() == 0 {
    } else if s[0] == ' ' {
        if cur.len() == 0 {
            lemma_tokenize_err_iff_bad_escape(s.skip(1), cur, acc);
        } else {
            lemma_tokenize_err_iff_bad_escape(s.skip(1), Seq::empty(), acc.push(cur));
        }
    } else if s[0] == '\\' {
        if s.len() == 1 {
        } else if s[1] == '\\' {
            lemma_tokenize_err_iff_bad_escape(s.skip(2), cur.push('\\'), acc);
        } else if s[1] == ' ' {
            lemma_tokenize_err_iff_bad_escape(s.skip(2), cur.push(' '), acc);
        } else if s[1] == '\n' {
            lemma_tokenize_err_iff_bad_escape(s.skip(2), cur, acc);
        } else {
        }
    } else if s[0] == '\n' {
        lemma_tokenize_err_iff_bad_escape(s.skip(1), cur, acc);
    } else {
        lemma_tokenize_err_iff_bad_escape(s.skip(1), cur.push(s[0]), acc);
    }
}

/// Law: [`parse`] fails precisely on the manifests whose prerequisite text
/// holds an invalid escape — a lone backslash followed by a character other
/// than `\`, a space, or a newline.
pub proof fn lemma_parse_rejects_bad_escape(s: Seq<char>)
    ensures
        spec_parse(s) is Err <==> spec_has_bad_escape(spec_skip_spaces(spec_after_colon(s))),
{
    lemma_tokenize_err_iff_bad_escape(
        spec_skip_spaces(spec_after_colon(s)),
        Seq::empty(),
        Seq::<Seq<char>>::empty(),
    );
}

proof fn lemma_escape_take_step(s: Seq<char>, i: int)
    requires
        0 <= i < s.len(),
    ensures
        spec_escape_token(s.take(i + 1)) == spec_escape_token(s.take(i)) + (
        if s[i] == '\\' {
            seq!['\\', '\\']
        } else if s[i] == ' ' {
            seq!['\\', ' ']
        } else {
            seq![s[i]]
        }),
{
    lemma_escape_snoc(s.take(i), s[i]);
    assert(s.take(i).push(s[i]) =~= s.take(i + 1));
}

} // verus!

