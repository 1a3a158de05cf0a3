//! Topic-name templates: `{variable_name}` placeholders resolved against a
//! per-message variable map. An unresolved or unterminated placeholder is an
//! error, never silently left in. Templates and values are byte strings; the
//! unverified shell converts to and from `String` at its edges.

use vstd::prelude::*;

verus! {

/// Error taxonomy of template resolution.
#[derive(Clone, Copy, Debug, PartialEq, Eq, Structural)]
pub enum TemplateError {
    /// A `{name}` placeholder names an unbound variable, or a `{` is never
    /// closed.
    UnresolvedVariable,
}

/// The byte that opens a placeholder, `{`.
pub const LBRACE: u8 = 0x7b;

/// The byte that closes a placeholder, `}`.
pub const RBRACE: u8 = 0x7d;

/// The smallest index `j >= from` with `s[j] == c`, if any.
pub open spec fn find_byte(s: Seq<u8>, c: u8, from: int) -> Option<int>
    decreases s.len() - from,
{
    if from < 0 || from >= s.len() {
        None
    } else if s[from] == c {
        Some(from)
    } else {
        find_byte(s, c, from + 1)
    }
}

pub proof fn lemma_find_byte_props(s: Seq<u8>, c: u8, from: int)
    requires
        0 <= from,
    ensures
        match find_byte(s, c, from) {
            Some(j) => from <= j < s.len() && s[j] == c && forall|k: int|
                from <= k < j ==> s[k] != c,
            None => forall|k: int| from <= k < s.len() ==> s[k] != c,
        },
    decreases s.len() - from,
{
    if from >= s.len() {
    } else if s[from] == c {
    } else {
        lemma_find_byte_props(s, c, from + 1);
    }
}

/// The resolution of the template suffix `t[i..]` under the bindings `vars`:
/// `None` when a placeholder is unbound or unterminated, else the resolved
/// bytes.
pub open spec fn resolved_from(t: Seq<u8>, vars: Map<Seq<u8>, Seq<u8>>, i: int) -> Option<Seq<u8>>
    decreases t.len() - i,
{
    if i < 0 || i >= t.len() {
        Some(Seq::empty())
    } else if t[i] == LBRACE {
        match find_byte(t, RBRACE, i + 1) {
            None => None,
            Some(j) => {
                if i + 1 <= j < t.len() {
                    let name = t.subrange(i + 1, j);
                    if vars.contains_key(name) {
                        match resolved_from(t, vars, j + 1) {
                            Some(rest) => Some(vars[name] + rest),
                            None => None,
                        }
                    } else {
                        None
                    }
                } else {
                    None
                }
            },
        }
    } else {
        match resolved_from(t, vars, i + 1) {
            Some(rest) => Some(seq![t[i]] + rest),
            None => None,
        }
    }
}

/// The resolution of a whole template under the bindings `vars`.
pub open spec fn resolved(t: Seq<u8>, vars: Map<Seq<u8>, Seq<u8>>) -> Option<Seq<u8>> {
    resolved_from(t, vars, 0)
}

pub open spec fn opt_prepend(p: Seq<u8>, o: Option<Seq<u8>>) -> Option<Seq<u8>> {
    match o {
        Some(r) => Some(p + r),
        None => None,
    }
}

/// The variable names the template suffix `t[i..]` references: the bytes
/// between each `{` and its closing `}`. `None` when some `{` is never
/// closed.
pub open spec fn template_names_from(t: Seq<u8>, i: int) -> Option<Set<Seq<u8>>>
    decreases t.len() - i,
{
    if i < 0 || i >= t.len() {
        Some(Set::empty())
    } else if t[i] == LBRACE {
        match find_byte(t, RBRACE, i + 1) {
            None => None,
            Some(j) => {
                if i + 1 <= j < t.len() {
                    match template_names_from(t, j + 1) {
                        Some(rest) => Some(rest.insert(t.subrange(i + 1, j))),
                        None => None,
                    }
                } else {
                    None
                }
            },
        }
    } else {
        template_names_from(t, i + 1)
    }
}

/// Whether every name of the set is bound in `vars`.
pub open spec fn names_bound(names: Set<Seq<u8>>, vars: Map<Seq<u8>, Seq<u8>>) -> bool {
    forall|n: Seq<u8>| #[trigger] names.contains(n) ==> vars.contains_key(n)
}

/// A set holding an unbound name is not fully bound.
proof fn lemma_unbound_witness(names: Set<Seq<u8>>, vars: Map<Seq<u8>, Seq<u8>>, n: Seq<u8>)
    requires
        names.contains(n),
        !vars.contains_key(n),
    ensures
        !names_bound(names, vars),
{
}

/// A template resolves under `vars` exactly when each of its placeholders is
/// closed and each referenced name is bound: resolution fails on an unbound
/// or unterminated placeholder, and on nothing else.
pub proof fn lemma_resolved_iff_names_bound(t: Seq<u8>, vars: Map<Seq<u8>, Seq<u8>>, i: int)
    ensures
        (resolved_from(t, vars, i) is Some) <==> match template_names_from(t, i) {
            Some(names) => names_bound(names, vars),
            None => false,
        },
    decreases t.len() - i,
{
    if i < 0 || i >= t.len() {
    } else if t[i] == LBRACE {
        match find_byte(t, RBRACE, i + 1) {
            None => {},
            Some(j) => {
                if i + 1 <= j < t.len() {
                    lemma_resolved_iff_names_bound(t, vars, j + 1);
                    let name = t.subrange(i + 1, j);
                    match template_names_from(t, j + 1) {
                        Some(rest) => {
                            let all = rest.insert(name);
                            assert(template_names_from(t, i) == Some(all));
                            assert(all.contains(name));
                            if vars.contains_key(name) && (resolved_from(t, vars, j + 1) is Some) {
                                assert(names_bound(rest, vars));
                                assert forall|n: Seq<u8>| all.contains(n) implies vars.contains_key(
                                    n,
                                ) by {
                                    if n != name {
                                        assert(rest.contains(n));
                                    }
                                }
                                assert(names_bound(all, vars));
                                assert(resolved_from(t, vars, i) is Some);
                            } else if !vars.contains_key(name) {
                                assert(resolved_from(t, vars, i) is None);
                                lemma_unbound_witness(all, vars, name);
                            } else {
                                assert(resolved_from(t, vars, i) is None);
                                assert(!names_bound(rest, vars));
                                let n0 = choose|n: Seq<u8>|
                                    rest.contains(n) && !vars.contains_key(n);
                                assert(rest.contains(n0) && !vars.contains_key(n0));
                                assert(all.contains(n0));
                                lemma_unbound_witness(all, vars, n0);
                            }
                        },
                        None => {
                            assert(template_names_from(t, i) is None);
                            assert(resolved_from(t, vars, j + 1) is None);
                            assert(resolved_from(t, vars, i) is None);
                        },
                    }
                }
            },
        }
    } else {
        lemma_resolved_iff_names_bound(t, vars, i + 1);
    }
}

/// A template that references any unbound variable fails to resolve.
pub proof fn lemma_unbound_variable_fails(t: Seq<u8>, vars: Map<Seq<u8>, Seq<u8>>, n: Seq<u8>)
    requires
        template_names_from(t, 0) matches Some(names) && names.contains(n),
        !vars.contains_key(n),
    ensures
        resolved(t, vars) is None,
{
    lemma_resolved_iff_names_bound(t, vars, 0);
    match template_names_from(t, 0) {
        Some(names) => {
            lemma_unbound_witness(names, vars, n);
        },
        None => {},
    }
}

/// Variable bindings for template resolution: name to value, over bytes.
/// Viewed as a map; a later binding of the same name wins.
pub struct TemplateVars {
    entries: Vec<(Vec<u8>, Vec<u8>)>,
}

/// The map held by a sequence of bindings, later entries overriding earlier
/// ones.
pub closed spec fn entries_map(s: Seq<(Vec<u8>, Vec<u8>)>) -> Map<Seq<u8>, Seq<u8>>
    decreases s.len(),
{
    if s.len() == 0 {
        Map::empty()
    } else {
        entries_map(s.drop_last()).insert(s.last().0@, s.last().1@)
    }
}

impl View for TemplateVars {
    type V = Map<Seq<u8>, Seq<u8>>;

    closed spec fn view(&self) -> Map<Seq<u8>, Seq<u8>> {
        entries_map(self.entries@)
    }
}

proof fn lemma_entries_map_skip(s: Seq<(Vec<u8>, Vec<u8>)>, k: Seq<u8>, i: int)
    requires
        0 <= i <= s.len(),
        forall|j: int| i <= j < s.len() ==> s[j].0@ != k,
    ensures
        entries_map(s).contains_key(k) == entries_map(s.take(i)).contains_key(k),
        entries_map(s).contains_key(k) ==> entries_map(s)[k] == entries_map(s.take(i))[k],
    decreases s.len() - i,
{
    if i == s.len() {
        assert(s.take(i) =~= s);
    } else {
        let s1 = s.drop_last();
        assert forall|j: int| i <= j < s1.len() implies s1[j].0@ != k by {
            assert(s1[j] == s[j]);
        }
        lemma_entries_map_skip(s1, k, i);
        assert(s1.take(i) =~= s.take(i));
        assert(s.last().0@ != k);
    }
}

fn bytes_eq(a: &[u8], b: &[u8]) -> (r: bool)
    ensures
        r == (a@ == b@),
{
    if a.len() != b.len() {
        return false;
    }
    let mut i: usize = 0;
    while i < a.len()
        invariant
            i <= a@.len(),
            a@.len() == b@.len(),
            forall|j: int| 0 <= j < i ==> a@[j] == b@[j],
        decreases a@.len() - i,
    {
        if a[i] != b[i] {
            return false;
        }
        i = i + 1;
    }
    proof {
        assert(a@ =~= b@);
    }
    true
}

fn append_bytes(out: &mut Vec<u8>, src: &Vec<u8>)
    ensures
        final(out)@ == old(out)@ + src@,
{
    let mut k: usize = 0;
    while k < src.len()
        invariant
            k <= src@.len(),
            out@ == old(out)@ + src@.take(k as int),
        decreases src@.len() - k,
    {
        let ghost out0 = out@;
        out.push(src[k]);
        proof {
            assert(out@ =~= old(out)@ + src@.take(k as int + 1));
        }
        k = k + 1;
    }
    proof {
        assert(src@.take(src@.len() as int) =~= src@);
    }
}

impl TemplateVars {
    /// An empty set of bindings.
    pub fn new() -> (r: TemplateVars)
        ensures
            r@ == Map::<Seq<u8>, Seq<u8>>::empty(),
    {
        let r = TemplateVars { entries: Vec::new() };
        proof {
            assert(r.entries@ =~= Seq::<(Vec<u8>, Vec<u8>)>::empty());
        }
        r
    }

    /// Bind `name` to `value`, overriding any earlier binding of `name`.
    pub fn insert(&mut self, name: Vec<u8>, value: Vec<u8>)
        ensures
            final(self)@ == old(self)@.insert(name@, value@),
    {
        let ghost s0 = self.entries@;
        let ghost n = name@;
        let ghost v = value@;
        self.entries.push((name, value));
        proof {
            assert(self.entries@.drop_last() =~= s0);
            assert(self.entries@.last().0@ == n);
            assert(self.entries@.last().1@ == v);
        }
    }

    /// The value bound to `name`, if any.
    pub fn get<'a>(&'a self, name: &[u8]) -> (r: Option<&'a Vec<u8>>)
        ensures
            match r {
                Some(v) => self@.contains_key(name@) && v@ == self@[name@],
                None => !self@.contains_key(name@),
            },
    {
        let mut i: usize = self.entries.len();
        while i > 0
            invariant
                i <= self.entries@.len(),
                forall|j: int| i <= j < self.entries@.len() ==> self.entries@[j].0@ != name@,
            decreases i,
        {
            i = i - 1;
            if bytes_eq(self.entries[i].0.as_slice(), name) {
                proof {
                    lemma_entries_map_skip(self.entries@, name@, i as int + 1);
                    let t = self.entries@.take(i as int + 1);
                    assert(t.drop_last() =~= self.entries@.take(i as int));
                    assert(t.last() == self.entries@[i as int]);
                }
                return Some(&self.entries[i].1);
            }
        }
        proof {
            lemma_entries_map_skip(self.entries@, name@, 0);
            assert(self.entries@.take(0) =~= Seq::<(Vec<u8>, Vec<u8>)>::empty());
        }
        None
    }
}

/// Resolve a topic-name template: substitute each `{name}` placeholder with
/// the value bound to `name`. Returns exactly the resolution that `resolved`
/// gives; fails with `UnresolvedVariable` if and only if that resolution is
/// `None`, that is, when a placeholder is unbound or unterminated.
pub fn resolve_template(template: &[u8], vars: &TemplateVars) -> (r: Result<
    Vec<u8>,
    TemplateError,
>)
    ensures
        match r {
            Ok(v) => resolved(template@, vars@) == Some(v@),
            Err(e) => resolved(template@, vars@) is None && e == TemplateError::UnresolvedVariable,
        },
{
    let ghost t = template@;
    let ghost m = vars@;
    let mut out: Vec<u8> = Vec::new();
    let mut i: usize = 0;
    proof {
        assert(out@ =~= Seq::<u8>::empty());
        assert(opt_prepend(out@, resolved_from(t, m, 0)) == resolved(t, m));
    }
    while i < template.len()
        invariant
            t == template@,
            m == vars@,
            i <= t.len(),
            resolved(t, m) == opt_prepend(out@, resolved_from(t, m, i as int)),
        decreases t.len() - i,
    {
        let c: u8 = template[i];
        if c == LBRACE {
            match find_byte_from(template, RBRACE, i + 1) {
                None => {
                    proof {
                        assert(resolved_from(t, m, i as int) is None);
                    }
                    return Err(TemplateError::UnresolvedVariable);
                },
                Some(j) => {
                    proof {
                        lemma_find_byte_props(t, RBRACE, i as int + 1);
                    }
                    let name = &template[i + 1..j];
                    match vars.get(name) {
                        None => {
                            proof {
                                assert(resolved_from(t, m, i as int) is None);
                            }
                            return Err(TemplateError::UnresolvedVariable);
                        },
                        Some(val) => {
                            let ghost out0 = out@;
                            let ghost rest_opt = resolved_from(t, m, j as int + 1);
                            append_bytes(&mut out, val);
                            proof {
                                match rest_opt {
                                    Some(rest) => {
                                        assert(out0 + (m[name@] + rest) =~= out@ + rest);
                                    },
                                    None => {},
                                }
                            }
                            i = j + 1;
                        },
                    }
                },
            }
        } else {
            let ghost out0 = out@;
            out.push(c);
            proof {
                match resolved_from(t, m, i as int + 1) {
                    Some(rest) => {
                        assert(out0 + (seq![c] + rest) =~= out@ + rest);
                    },
                    None => {},
                }
            }
            i = i + 1;
        }
    }
    proof {
        assert(resolved_from(t, m, i as int) == Some(Seq::<u8>::empty()));
        assert(out@ + Seq::<u8>::empty() =~= out@);
    }
    Ok(out)
}

fn find_byte_from(data: &[u8], c: u8, from: usize) -> (r: Option<usize>)
    ensures
        match r {
            Some(j) => find_byte(data@, c, from as int) == Some(j as int),
            None => find_byte(data@, c, from as int) is None,
        },
{
    let mut i: usize = from;
    while i < data.len()
        invariant
            from <= i,
            find_byte(data@, c, from as int) == find_byte(data@, c, i as int),
        decreases data@.len() - i,
    {
        if data[i] == c {
            return Some(i);
        }
        i = i + 1;
    }
    None
}

} // verus!
