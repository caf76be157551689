//! The expansion of references to environment variables in the text of a supergraph config.
//! A reference is written `${env.NAME}`, or `${env.NAME:-default}` with a default for a
//! variable that is unset or empty; any other text, `$` and `${...}` that does not name
//! `env.` included, stays as it is written.
use vstd::prelude::*;
use vstd::string::*;

use crate::name_map::NameMap;

verus! {

/// Where the first `}` of `text` at or after `k` stands; `text.len()` where there is none.
pub open spec fn close_index(text: Seq<char>, k: int) -> int
    decreases text.len() - k,
{
    if k >= text.len() {
        text.len() as int
    } else if text[k] == '}' {
        k
    } else {
        close_index(text, k + 1)
    }
}

/// Where the first `:-` of `text` at or after `k` starts; `text.len()` where there is none.
pub open spec fn default_index(text: Seq<char>, k: int) -> int
    decreases text.len() - k,
{
    if k + 1 >= text.len() {
        text.len() as int
    } else if text[k] == ':' && text[k + 1] == '-' {
        k
    } else {
        default_index(text, k + 1)
    }
}

/// The first `}` at or after `k` stands at `k` or later, within the text.
pub proof fn lemma_close_index_bounds(text: Seq<char>, k: int)
    requires
        0 <= k <= text.len(),
    ensures
        k <= close_index(text, k) <= text.len(),
        close_index(text, k) < text.len() ==> text[close_index(text, k)] == '}',
    decreases text.len() - k,
{
    if k < text.len() && text[k] != '}' {
        lemma_close_index_bounds(text, k + 1);
    }
}

/// The first `:-` at or after `k` starts at `k` or later, with room for both characters.
pub proof fn lemma_default_index_bounds(text: Seq<char>, k: int)
    requires
        0 <= k <= text.len(),
    ensures
        k <= default_index(text, k) <= text.len(),
        default_index(text, k) < text.len() ==> default_index(text, k) + 2 <= text.len(),
    decreases text.len() - k,
{
    if k + 1 < text.len() && !(text[k] == ':' && text[k + 1] == '-') {
        lemma_default_index_bounds(text, k + 1);
    }
}

/// The text of the error for a reference to the variable `name`, which is unset and has no
/// default.
pub open spec fn missing_variable_message(name: Seq<char>) -> Seq<char> {
    "error looking key 'env."@ + name + "' up: environment variable not found"@
}

/// What the reference `${env.VAR}` stands for, `VAR` being `var` and `env` holding the
/// variables that are set: the variable's value where it is set and not empty, else the
/// default where one is given, else its empty value where it is set; a variable that is unset
/// and has no default is an error.
pub open spec fn reference_value(var: Seq<char>, env: NameMap<String>) -> Result<Seq<char>, Seq<char>> {
    let d = default_index(var, 0);
    let name = var.subrange(0, d);
    match env.spec_get(name) {
        Some(v) if v@.len() > 0 => Ok(v@),
        found => if d < var.len() {
            Ok(var.subrange(d + 2, var.len() as int))
        } else {
            match found {
                Some(v) => Ok(v@),
                None => Err(missing_variable_message(name)),
            }
        },
    }
}

/// `prefix` put before what `rest` expands to.
pub open spec fn prepend(prefix: Seq<char>, rest: Result<Seq<char>, Seq<char>>) -> Result<Seq<char>, Seq<char>> {
    match rest {
        Ok(t) => Ok(prefix + t),
        Err(e) => Err(e),
    }
}

/// Whether an environment reference starts at `i` of `text`: `${env.` with a `}` after it.
pub open spec fn reference_at(text: Seq<char>, i: int) -> bool {
    let j = close_index(text, i + 2);
    &&& 0 <= i
    &&& i + 1 < text.len()
    &&& text[i] == '$'
    &&& text[i + 1] == '{'
    &&& i + 2 <= j < text.len()
    &&& j - (i + 2) >= 4
    &&& text.subrange(i + 2, i + 6) == "env."@
}

/// What `text` from `i` on expands to, each environment reference being replaced by what it
/// stands for; the error of the first reference to an unset variable without a default.
pub open spec fn expand_from(text: Seq<char>, i: int, env: NameMap<String>) -> Result<Seq<char>, Seq<char>>
    decreases text.len() - i,
{
    if i < 0 || i >= text.len() {
        Ok(Seq::empty())
    } else if reference_at(text, i) {
        let j = close_index(text, i + 2);
        match reference_value(text.subrange(i + 6, j), env) {
            Ok(v) => prepend(v, expand_from(text, j + 1, env)),
            Err(e) => Err(e),
        }
    } else {
        prepend(seq![text[i]], expand_from(text, i + 1, env))
    }
}

/// What `text` expands to, `env` holding the environment variables that are set.
pub open spec fn expanded(text: Seq<char>, env: NameMap<String>) -> Result<Seq<char>, Seq<char>> {
    expand_from(text, 0, env)
}

/// Where the first `}` of `s` at or after `from` stands; the length of `s` where there is none.
fn find_close(s: &str, n: usize, from: usize) -> (j: usize)
    requires
        n == s@.len(),
        from <= n,
    ensures
        j == close_index(s@, from as int),
{
    let mut j = from;
    loop
        invariant
            n == s@.len(),
            from <= j <= n,
            close_index(s@, from as int) == close_index(s@, j as int),
        decreases n - j,
    {
        if j >= n {
            return j;
        }
        if s.get_char(j) == '}' {
            return j;
        }
        j = j + 1;
    }
}

/// Where the first `:-` of `s` starts; the length of `s` where there is none.
fn find_default(s: &str, n: usize) -> (d: usize)
    requires
        n == s@.len(),
    ensures
        d == default_index(s@, 0),
{
    let mut k: usize = 0;
    loop
        invariant
            n == s@.len(),
            k <= n,
            default_index(s@, 0) == default_index(s@, k as int),
        decreases n - k,
    {
        if n == 0 || k >= n - 1 {
            return n;
        }
        if s.get_char(k) == ':' && s.get_char(k + 1) == '-' {
            return k;
        }
        k = k + 1;
    }
}

/// What the reference `${env.VAR}` stands for, `VAR` being `var` (see [`reference_value`]).
fn lookup_reference(var: &str, env: &NameMap<String>) -> (r: Result<String, String>)
    ensures
        match r {
            Ok(v) => reference_value(var@, *env) == Ok::<Seq<char>, Seq<char>>(v@),
            Err(e) => reference_value(var@, *env) == Err::<Seq<char>, Seq<char>>(e@),
        },
{
    let n = var.unicode_len();
    let d = find_default(var, n);
    proof {
        lemma_default_index_bounds(var@, 0);
    }
    let name = var.substring_char(0, d).to_owned();
    let found = env.get(&name);
    match found {
        Some(v) => {
            if v.as_str().unicode_len() > 0 {
                return Ok(v.clone());
            }
        },
        None => {},
    }
    if d < n {
        return Ok(var.substring_char(d + 2, n).to_owned());
    }
    match found {
        Some(v) => Ok(v.clone()),
        None => {
            let mut message = String::from_str("error looking key 'env.");
            message.append(name.as_str());
            message.append("' up: environment variable not found");
            proof {
                assert(message@ =~= missing_variable_message(name@));
            }
            Err(message)
        },
    }
}

/// Expands the references to environment variables in `text`, `env` holding the variables
/// that are set: the text with each reference replaced by what it stands for, or the error of
/// the first reference to an unset variable without a default.
pub fn expand_text(text: &str, env: &NameMap<String>) -> (r: Result<String, String>)
    ensures
        match r {
            Ok(t) => expanded(text@, *env) == Ok::<Seq<char>, Seq<char>>(t@),
            Err(e) => expanded(text@, *env) == Err::<Seq<char>, Seq<char>>(e@),
        },
{
    let n = text.unicode_len();
    let ghost t = text@;
    let mut out = String::new();
    let mut i: usize = 0;
    while i < n
        invariant
            n == t.len(),
            t == text@,
            i <= n,
            expand_from(t, 0, *env) == prepend(out@, expand_from(t, i as int, *env)),
        decreases n - i,
    {
        let mut replaced = false;
        if i + 1 < n && text.get_char(i) == '$' && text.get_char(i + 1) == '{' {
            let j = find_close(text, n, i + 2);
            proof {
                lemma_close_index_bounds(t, i + 2);
                reveal_strlit("env.");
            }
            if j < n && j - (i + 2) >= 4 && crate::text::matches_at(text, i + 2, "env.") {
                proof {
                    reveal_strlit("env.");
                    assert(reference_at(t, i as int));
                }
                let var = text.substring_char(i + 6, j);
                match lookup_reference(var, env) {
                    Ok(v) => {
                        proof {
                            assert(expand_from(t, i as int, *env) == prepend(v@, expand_from(t, j + 1, *env)));
                            match expand_from(t, j + 1, *env) {
                                Ok(x) => assert((out@ + v@) + x =~= out@ + (v@ + x)),
                                Err(_) => {},
                            }
                        }
                        out.append(v.as_str());
                        i = j + 1;
                        replaced = true;
                    },
                    Err(e) => {
                        proof {
                            assert(expand_from(t, i as int, *env) == Err::<Seq<char>, Seq<char>>(e@));
                        }
                        return Err(e);
                    },
                }
            } else {
                proof {
                    if reference_at(t, i as int) {
                        reveal_strlit("env.");
                        assert(t.subrange(i + 2, i + 6) == "env."@);
                    }
                }
            }
        }
        if !replaced {
            proof {
                assert(!reference_at(t, i as int)) by {
                    if reference_at(t, i as int) {
                        reveal_strlit("env.");
                    }
                }
            }
            let c = text.substring_char(i, i + 1);
            proof {
                assert(c@ =~= seq![t[i as int]]);
                assert(expand_from(t, i as int, *env) == prepend(c@, expand_from(t, i + 1, *env)));
                match expand_from(t, i + 1, *env) {
                    Ok(x) => assert((out@ + c@) + x =~= out@ + (c@ + x)),
                    Err(_) => {},
                }
            }
            out.append(c);
            i = i + 1;
        }
    }
    proof {
        assert(out@ + Seq::<char>::empty() =~= out@);
    }
    Ok(out)
}

} // verus!
