use vstd::prelude::*;
use vstd::string::*;
use crate::text::push_char;

verus! {

broadcast use vstd::string::group_string_axioms;

/// A variable reference: `$`, then the variable's name, an ASCII letter or
/// `_` followed by ASCII letters, digits and `_`, captured as group 1.
pub const VAR_PATTERN: &'static str = "\\$([A-Za-z_][A-Za-z0-9_]*)";

/// The environment as pairs of name and value.
pub open spec fn env_model(env: Seq<(String, String)>) -> Seq<(Seq<char>, Seq<char>)> {
    env.map_values(|p: (String, String)| (p.0@, p.1@))
}

/// The views of a sequence of strings.
pub open spec fn strings_model(v: Seq<String>) -> Seq<Seq<char>> {
    v.map_values(|s: String| s@)
}

/// The value of the first entry of `env` named `name`.
pub open spec fn lookup(env: Seq<(Seq<char>, Seq<char>)>, name: Seq<char>) -> Option<Seq<char>>
    decreases env.len(),
{
    if env.len() == 0 {
        None
    } else if env[0].0 == name {
        Some(env[0].1)
    } else {
        lookup(env.drop_first(), name)
    }
}

/// What a reference to the variable `name` becomes: its value where `env`
/// holds it, else the reference as written, `$name`.
pub open spec fn replacement(name: Seq<char>, env: Seq<(Seq<char>, Seq<char>)>) -> Seq<char> {
    match lookup(env, name) {
        Some(v) => v,
        None => seq!['$'] + name,
    }
}

/// The text between the references (`gaps`, one more than there are
/// references) joined with the replacement of each referenced name
/// (`names`), in order.
pub open spec fn assemble(
    gaps: Seq<Seq<char>>,
    names: Seq<Seq<char>>,
    env: Seq<(Seq<char>, Seq<char>)>,
) -> Seq<char>
    recommends
        gaps.len() == names.len() + 1,
    decreases names.len(),
{
    if names.len() == 0 {
        gaps[0]
    } else {
        assemble(gaps.drop_last(), names.drop_last(), env) + replacement(names.last(), env)
            + gaps.last()
    }
}

/// A character that may begin a variable name: an ASCII letter or `_`.
pub open spec fn is_name_start(c: char) -> bool {
    ('A' <= c && c <= 'Z') || ('a' <= c && c <= 'z') || c == '_'
}

/// A character that may continue a variable name: an ASCII letter, digit or `_`.
pub open spec fn is_name_char(c: char) -> bool {
    is_name_start(c) || ('0' <= c && c <= '9')
}

/// A variable name as [`VAR_PATTERN`] captures it.
pub open spec fn is_var_name(s: Seq<char>) -> bool {
    &&& s.len() > 0
    &&& is_name_start(s[0])
    &&& forall|k: int| 0 <= k < s.len() ==> is_name_char(#[trigger] s[k])
}

/// The text between the references joined with the references as written,
/// `$name`: the text the pieces were taken from.
pub open spec fn rejoin(gaps: Seq<Seq<char>>, names: Seq<Seq<char>>) -> Seq<char>
    recommends
        gaps.len() == names.len() + 1,
    decreases names.len(),
{
    if names.len() == 0 {
        gaps[0]
    } else {
        rejoin(gaps.drop_last(), names.drop_last()) + (seq!['$'] + names.last()) + gaps.last()
    }
}

/// `s` with every `~` replaced by `$HOME`.
pub open spec fn replace_tilde(s: Seq<char>) -> Seq<char>
    decreases s.len(),
{
    if s.len() == 0 {
        seq![]
    } else {
        replace_tilde(s.drop_last()) + if s.last() == '~' {
            seq!['$', 'H', 'O', 'M', 'E']
        } else {
            seq![s.last()]
        }
    }
}

/// What `regex_lite` makes of `haystack` with the regular expression
/// `pattern`: the pieces of `haystack` between matches (`Regex::split`) and
/// capture group 1 of each match (`Regex::captures_iter`), in order; `None`
/// where `pattern` does not compile.
pub uninterp spec fn regex_pieces(pattern: Seq<char>, haystack: Seq<char>) -> Option<
    (Seq<Seq<char>>, Seq<Seq<char>>),
>;

/// Compiles `pattern` with `regex_lite::Regex::new`, then splits `haystack`
/// at the matches (`Regex::split`) and takes capture group 1 of each match
/// (`Regex::captures_iter`). The pieces are those named by
/// [`regex_pieces`]. Only [`VAR_PATTERN`] is accepted: it is a valid
/// expression, so it compiles, and its group 1 takes part in every match,
/// so taking it never fails. A split yields one piece more than there are
/// matches; each match is `$` followed by its group 1, a variable name, and
/// the pieces and matches in turn make up `haystack`.
#[verifier::external_body]
fn var_pieces(pattern: &str, haystack: &str) -> (r: Option<(Vec<String>, Vec<String>)>)
    requires
        pattern@ == VAR_PATTERN@,
    ensures
        match regex_pieces(pattern@, haystack@) {
            Some((gaps, names)) => r matches Some((g, n)) && strings_model(g@) == gaps
                && strings_model(n@) == names,
            None => r is None,
        },
        r is Some,
        r matches Some((g, n)) ==> g.len() == n.len() + 1,
        r matches Some((g, n)) ==> rejoin(strings_model(g@), strings_model(n@)) == haystack@,
        r matches Some((g, n)) ==> forall|i: int|
            0 <= i < n.len() ==> is_var_name(#[trigger] strings_model(n@)[i]),
{
    let re = regex_lite::Regex::new(pattern).ok()?;
    let gaps = re.split(haystack).map(|s| s.to_string()).collect();
    let names = re.captures_iter(haystack).map(|c| c[1].to_string()).collect();
    Some((gaps, names))
}

/// The value of the first variable named `name` in `env`, if there is one.
pub fn lookup_var<'a>(env: &'a Vec<(String, String)>, name: &String) -> (r: Option<&'a String>)
    ensures
        match lookup(env_model(env@), name@) {
            Some(v) => r is Some && r->0@ == v,
            None => r is None,
        },
{
    let ghost model = env_model(env@);
    let mut i: usize = 0;
    assert(model.skip(0) == model);
    while i < env.len()
        invariant
            i <= env.len(),
            model == env_model(env@),
            lookup(model, name@) == lookup(model.skip(i as int), name@),
        decreases env.len() - i,
    {
        assert(model.skip(i as int)[0] == (env@[i as int].0@, env@[i as int].1@));
        if env[i].0 == *name {
            return Some(&env[i].1);
        }
        assert(model.skip(i as int).drop_first() == model.skip(i + 1));
        i = i + 1;
    }
    assert(model.skip(i as int).len() == 0);
    None
}

/// Joins the text between variable references with the replacement of each
/// referenced name (see [`assemble`]).
pub fn expand_matches(gaps: &Vec<String>, names: &Vec<String>, env: &Vec<(String, String)>) -> (r:
    String)
    requires
        gaps.len() == names.len() + 1,
    ensures
        r@ == assemble(strings_model(gaps@), strings_model(names@), env_model(env@)),
{
    let ghost g = strings_model(gaps@);
    let ghost n = strings_model(names@);
    let ghost m = env_model(env@);
    let mut out = String::new();
    out.append(gaps[0].as_str());
    assert(assemble(g.take(1), n.take(0), m) == g[0]);
    for i in 0..names.len()
        invariant
            gaps.len() == names.len() + 1,
            g == strings_model(gaps@),
            n == strings_model(names@),
            m == env_model(env@),
            out@ == assemble(g.take(i + 1), n.take(i as int), m),
    {
        let ghost before = out@;
        match lookup_var(env, &names[i]) {
            Some(v) => out.append(v.as_str()),
            None => {
                push_char(&mut out, '$');
                out.append(names[i].as_str());
            },
        }
        out.append(gaps[i + 1].as_str());
        assert(g.take(i + 2).drop_last() == g.take(i + 1));
        assert(n.take(i + 1).drop_last() == n.take(i as int));
        assert(out@ == before + replacement(n[i as int], m) + g[i + 1]);
    }
    assert(g.take(names.len() + 1) == g);
    assert(n.take(names.len() as int) == n);
    out
}

/// Expands the variable references `$NAME` in `input` (found with
/// `regex_lite` and [`VAR_PATTERN`]): each becomes the value of `NAME` in
/// `env`, or stays as written where `env` holds no such variable. The
/// pattern always compiles, so there is always a result; an input without
/// `$` comes back as it is.
pub fn expand_env(input: &str, env: &Vec<(String, String)>) -> (r: Option<String>)
    ensures
        r is Some,
        match regex_pieces(VAR_PATTERN@, input@) {
            Some((gaps, names)) => r matches Some(s) && s@ == assemble(gaps, names, env_model(env@)),
            None => r is None,
        },
        !input@.contains('$') ==> (r matches Some(s) && s@ == input@),
{
    match var_pieces(VAR_PATTERN, input) {
        Some((gaps, names)) => {
            let r = expand_matches(&gaps, &names, env);
            proof {
                if !input@.contains('$') {
                    lemma_no_reference_unchanged(
                        strings_model(gaps@),
                        strings_model(names@),
                        env_model(env@),
                        input@,
                    );
                }
            }
            Some(r)
        },
        None => None,
    }
}

/// Text without `$` holds no variable reference, so expanding it changes nothing.
pub proof fn lemma_no_reference_unchanged(
    gaps: Seq<Seq<char>>,
    names: Seq<Seq<char>>,
    env: Seq<(Seq<char>, Seq<char>)>,
    input: Seq<char>,
)
    requires
        gaps.len() == names.len() + 1,
        rejoin(gaps, names) == input,
        !input.contains('$'),
    ensures
        assemble(gaps, names, env) == input,
{
    if names.len() > 0 {
        let prefix = rejoin(gaps.drop_last(), names.drop_last());
        let rest = (seq!['$'] + names.last()) + gaps.last();
        assert(input == prefix + rest);
        assert(input[prefix.len() as int] == '$');
    }
}

/// `input` with every `~` replaced by `$HOME`.
pub fn replace_tilde_str(input: &str) -> (r: String)
    ensures
        r@ == replace_tilde(input@),
{
    let mut out = String::new();
    for c in it: input.chars()
        invariant
            it.seq() == input@,
            out@ == replace_tilde(it.seq().take(it.index() as int)),
    {
        let ghost k = it.index() as int;
        assert(input@.take(k + 1).drop_last() == input@.take(k));
        if c == '~' {
            push_char(&mut out, '$');
            push_char(&mut out, 'H');
            push_char(&mut out, 'O');
            push_char(&mut out, 'M');
            push_char(&mut out, 'E');
        } else {
            push_char(&mut out, c);
        }
        assert(out@ == replace_tilde(input@.take(k + 1)));
    }
    assert(input@.take(input@.len() as int) == input@);
    out
}


/// The value of a variable is that of its first entry in the environment;
/// a variable without an entry has none.
pub proof fn lemma_lookup_first(env: Seq<(Seq<char>, Seq<char>)>, name: Seq<char>, i: int)
    requires
        0 <= i < env.len(),
        env[i].0 == name,
        forall|j: int| 0 <= j < i ==> #[trigger] env[j].0 != name,
    ensures
        lookup(env, name) == Some(env[i].1),
    decreases i,
{
    if i > 0 {
        let d = env.drop_first();
        assert forall|j: int| 0 <= j < i - 1 implies #[trigger] d[j].0 != name by {
            assert(d[j] == env[j + 1]);
        }
        assert(env[0].0 != name);
        lemma_lookup_first(d, name, i - 1);
    }
}

pub proof fn lemma_lookup_absent(env: Seq<(Seq<char>, Seq<char>)>, name: Seq<char>)
    requires
        forall|j: int| 0 <= j < env.len() ==> #[trigger] env[j].0 != name,
    ensures
        lookup(env, name) is None,
    decreases env.len(),
{
    if env.len() > 0 {
        let d = env.drop_first();
        assert forall|j: int| 0 <= j < d.len() implies #[trigger] d[j].0 != name by {
            assert(d[j] == env[j + 1]);
        }
        assert(env[0].0 != name);
        lemma_lookup_absent(d, name);
    }
}

/// Text around one variable reference: the reference becomes the
/// variable's value where the environment holds it, and stays `$name`
/// where it does not; the text around it is kept. Text without references
/// is kept whole.
pub proof fn lemma_reference_replaced(
    before: Seq<char>,
    name: Seq<char>,
    after: Seq<char>,
    env: Seq<(Seq<char>, Seq<char>)>,
)
    ensures
        assemble(seq![before], Seq::<Seq<char>>::empty(), env) == before,
        lookup(env, name) matches Some(v) ==> assemble(seq![before, after], seq![name], env)
            == before + v + after,
        lookup(env, name) is None ==> assemble(seq![before, after], seq![name], env) == before
            + seq!['$'] + name + after,
{
    let g = seq![before, after];
    let n = seq![name];
    assert(g.drop_last() == seq![before]);
    assert(n.drop_last() == Seq::<Seq<char>>::empty());
    assert(assemble(g.drop_last(), n.drop_last(), env) == before);
}

/// Replacing `~` works piece by piece: the replacement of two texts joined
/// is the two replacements joined.
pub proof fn lemma_replace_tilde_concat(a: Seq<char>, b: Seq<char>)
    ensures
        replace_tilde(a + b) == replace_tilde(a) + replace_tilde(b),
    decreases b.len(),
{
    if b.len() > 0 {
        lemma_replace_tilde_concat(a, b.drop_last());
        assert((a + b).drop_last() == a + b.drop_last());
        assert((a + b).last() == b.last());
    } else {
        assert(a + b == a);
    }
}

/// A `~` becomes `$HOME`, and any other character stays as it is.
pub proof fn lemma_replace_tilde_char(c: char)
    ensures
        c == '~' ==> replace_tilde(seq![c]) == seq!['$', 'H', 'O', 'M', 'E'],
        c != '~' ==> replace_tilde(seq![c]) == seq![c],
{
    let s = seq![c];
    assert(s.drop_last() == Seq::<char>::empty());
    assert(s.last() == c);
    assert(replace_tilde(Seq::<char>::empty()) == Seq::<char>::empty());
    assert(replace_tilde(s) == replace_tilde(s.drop_last()) + if c == '~' {
        seq!['$', 'H', 'O', 'M', 'E']
    } else {
        seq![c]
    });
    assert(Seq::<char>::empty() + seq![c] == seq![c]);
    assert(Seq::<char>::empty() + seq!['$', 'H', 'O', 'M', 'E'] == seq!['$', 'H', 'O', 'M', 'E']);
}


/// Adding one more reference and the text after it adds that reference's
/// replacement and the text to the end of the expansion: references are
/// replaced one by one, in order, each on its own.
pub proof fn lemma_assemble_extend(
    gaps: Seq<Seq<char>>,
    names: Seq<Seq<char>>,
    name: Seq<char>,
    after: Seq<char>,
    env: Seq<(Seq<char>, Seq<char>)>,
)
    requires
        gaps.len() == names.len() + 1,
    ensures
        assemble(gaps.push(after), names.push(name), env) == assemble(gaps, names, env) + (
        match lookup(env, name) {
            Some(v) => v,
            None => seq!['$'] + name,
        }) + after,
{
    assert(gaps.push(after).drop_last() == gaps);
    assert(names.push(name).drop_last() == names);
}

} // verus!
