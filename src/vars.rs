//! Variable resolvers and the template expander.
//!
//! A resolver answers a name with a value or reports it missing. A chain of resolvers
//! answers with the first value found. The expander substitutes `${name}` and `$name`
//! tokens of a template through a chain, pass after pass, until the text no longer
//! changes or a fixed number of passes is reached.

use crate::text::strip_prefix;
use vstd::prelude::*;
use vstd::string::*;

verus! {

/// The error of a lookup or of a strict expansion.
#[derive(Debug, PartialEq, Eq)]
pub enum VarError {
    /// The variable with this name has no value.
    NotPresent(String),
}

impl VarError {
    /// The name of the missing variable.
    pub fn name(&self) -> (r: &String)
        ensures
            r@ == self.missing(),
    {
        match self {
            VarError::NotPresent(n) => n,
        }
    }

    pub open spec fn missing(&self) -> Seq<char> {
        match self {
            VarError::NotPresent(n) => n@,
        }
    }
}

/// A table of names and values; a later entry hides an earlier one of the same name.
pub open spec fn table_lookup(t: Seq<(Seq<char>, Seq<char>)>, name: Seq<char>) -> Option<Seq<char>>
    decreases t.len(),
{
    if t.len() == 0 {
        None
    } else if t.last().0 == name {
        Some(t.last().1)
    } else {
        table_lookup(t.drop_last(), name)
    }
}

/// The characters of each pair of strings.
pub open spec fn pairs_view(v: Seq<(String, String)>) -> Seq<(Seq<char>, Seq<char>)> {
    v.map_values(|p: (String, String)| (p.0@, p.1@))
}

/// `${name}`.
pub open spec fn braced(name: Seq<char>) -> Seq<char> {
    "${"@ + name + "}"@
}

/// The mathematical model of a resolver.
pub enum ResolverModel {
    /// Echoes every name back as `${name}`.
    AsIs,
    /// Looks the name up in a table.
    Table(Seq<(Seq<char>, Seq<char>)>),
    /// Strips a prefix from the name and asks the inner resolver; names without it are missing.
    Prefixed(Seq<char>, Box<ResolverModel>),
}

impl ResolverModel {
    /// The value of `name`, or the name reported as missing.
    pub open spec fn answer(self, name: Seq<char>) -> Result<Seq<char>, Seq<char>>
        decreases self,
    {
        match self {
            ResolverModel::AsIs => Ok(braced(name)),
            ResolverModel::Table(t) => match table_lookup(t, name) {
                Some(v) => Ok(v),
                None => Err(name),
            },
            ResolverModel::Prefixed(p, inner) => if p.is_prefix_of(name) {
                inner.answer(name.skip(p.len() as int))
            } else {
                Err(name)
            },
        }
    }
}

/// The first value that a resolver of the chain gives, tried in order.
pub open spec fn chain_answer(chain: Seq<ResolverModel>, name: Seq<char>) -> Result<Seq<char>, Seq<char>>
    decreases chain.len(),
{
    if chain.len() == 0 {
        Err(name)
    } else {
        match chain[0].answer(name) {
            Ok(v) => Ok(v),
            Err(_) => chain_answer(chain.drop_first(), name),
        }
    }
}

/// An executable result agrees with a modelled answer.
pub open spec fn answer_matches(r: Result<String, VarError>, a: Result<Seq<char>, Seq<char>>) -> bool {
    match (r, a) {
        (Ok(s), Ok(t)) => s@ == t,
        (Err(e), Err(m)) => e.missing() == m,
        _ => false,
    }
}

/// Looks `name` up among `vars`, the last entry first.
pub(crate) fn lookup_pairs(vars: &Vec<(String, String)>, name: &str) -> (r: Option<String>)
    ensures
        match r {
            Some(v) => table_lookup(pairs_view(vars@), name@) == Some(v@),
            None => table_lookup(pairs_view(vars@), name@) is None,
        },
{
    let key = String::from_str(name);
    let mut i: usize = vars.len();
    proof {
        assert(vars@.take(i as int) =~= vars@);
    }
    while i > 0
        invariant
            i <= vars.len(),
            key@ == name@,
            table_lookup(pairs_view(vars@), name@) == table_lookup(pairs_view(vars@.take(i as int)), name@),
        decreases i,
    {
        let ghost t = pairs_view(vars@.take(i as int));
        proof {
            assert(t.drop_last() =~= pairs_view(vars@.take(i - 1)));
            assert(t.last() == (vars@[i - 1].0@, vars@[i - 1].1@));
        }
        i = i - 1;
        if vars[i].0 == key {
            return Some(vars[i].1.clone());
        }
    }
    None
}

/// Resolves every name to `${name}`: the name stays in the text as it was.
pub struct AsIsVarResolver;

impl AsIsVarResolver {
    pub fn resolve_var(&self, v: &str) -> (r: Result<String, VarError>)
        ensures
            answer_matches(r, ResolverModel::AsIs.answer(v@)),
    {
        let mut s = String::from_str("${");
        s.append(v);
        s.append("}");
        Ok(s)
    }
}

/// Resolves names from a table filled by `insert`.
pub struct SimpleVarResolver {
    vars: Vec<(String, String)>,
}

impl SimpleVarResolver {
    pub closed spec fn view(&self) -> Seq<(Seq<char>, Seq<char>)> {
        pairs_view(self.vars@)
    }

    /// An empty table.
    pub fn new() -> (r: Self)
        ensures
            r.view() == Seq::<(Seq<char>, Seq<char>)>::empty(),
    {
        let r = SimpleVarResolver { vars: Vec::new() };
        assert(r.view() =~= Seq::<(Seq<char>, Seq<char>)>::empty());
        r
    }

    /// Registers `val` for `name`; it replaces an earlier value of that name.
    pub fn insert(&mut self, name: &str, val: &str)
        ensures
            final(self).view() == old(self).view().push((name@, val@)),
    {
        self.vars.push((String::from_str(name), String::from_str(val)));
        assert(self.view() =~= old(self).view().push((name@, val@)));
    }

    pub fn resolve_var(&self, v: &str) -> (r: Result<String, VarError>)
        ensures
            answer_matches(r, ResolverModel::Table(self.view()).answer(v@)),
    {
        match lookup_pairs(&self.vars, v) {
            Some(value) => Ok(value),
            None => Err(VarError::NotPresent(String::from_str(v))),
        }
    }
}

/// Resolves names from the process environment, read once when the resolver is made.
pub struct OsEnvVarResolver {
    vars: Vec<(String, String)>,
}

impl OsEnvVarResolver {
    pub closed spec fn view(&self) -> Seq<(Seq<char>, Seq<char>)> {
        pairs_view(self.vars@)
    }

    /// A resolver over the given names and values of the environment.
    pub fn from_vars(vars: Vec<(String, String)>) -> (r: Self)
        ensures
            r.view() == pairs_view(vars@),
    {
        OsEnvVarResolver { vars }
    }

    pub fn resolve_var(&self, v: &str) -> (r: Result<String, VarError>)
        ensures
            answer_matches(r, ResolverModel::Table(self.view()).answer(v@)),
    {
        match lookup_pairs(&self.vars, v) {
            Some(value) => Ok(value),
            None => Err(VarError::NotPresent(String::from_str(v))),
        }
    }
}

/// The names under which the platform constants are known.
pub open spec fn platform_table(arch: Seq<char>, family: Seq<char>, os: Seq<char>) -> Seq<(Seq<char>, Seq<char>)> {
    seq![("JU_ARCH"@, arch), ("JU_FAMILY"@, family), ("JU_OS"@, os)]
}

/// Resolves `JU_ARCH`, `JU_FAMILY` and `JU_OS` to the platform this process runs on.
pub struct RustEnvVarResolver {
    vars: Vec<(String, String)>,
}

impl RustEnvVarResolver {
    pub closed spec fn view(&self) -> Seq<(Seq<char>, Seq<char>)> {
        pairs_view(self.vars@)
    }

    /// A resolver for the given architecture, family and operating system.
    pub fn new(arch: &str, family: &str, os: &str) -> (r: Self)
        ensures
            r.view() == platform_table(arch@, family@, os@),
    {
        let mut vars: Vec<(String, String)> = Vec::new();
        vars.push((String::from_str("JU_ARCH"), String::from_str(arch)));
        vars.push((String::from_str("JU_FAMILY"), String::from_str(family)));
        vars.push((String::from_str("JU_OS"), String::from_str(os)));
        let r = RustEnvVarResolver { vars };
        assert(r.view() =~= platform_table(arch@, family@, os@));
        r
    }

    pub fn resolve_var(&self, v: &str) -> (r: Result<String, VarError>)
        ensures
            answer_matches(r, ResolverModel::Table(self.view()).answer(v@)),
    {
        match lookup_pairs(&self.vars, v) {
            Some(value) => Ok(value),
            None => Err(VarError::NotPresent(String::from_str(v))),
        }
    }
}

/// Strips a prefix from the name and hands the rest to another resolver.
pub struct PrefixedVarResolver {
    pub resolver: Box<VarResolver>,
    pub prefix: String,
}

impl PrefixedVarResolver {
    /// Asks `resolver` for the names that start with `prefix`, without it.
    pub fn new(prefix: &str, resolver: VarResolver) -> (r: Self)
        ensures
            r.prefix@ == prefix@,
            *r.resolver == resolver,
    {
        PrefixedVarResolver { resolver: Box::new(resolver), prefix: String::from_str(prefix) }
    }
}

/// A resolver of one of the known kinds.
pub enum VarResolver {
    AsIs(AsIsVarResolver),
    Simple(SimpleVarResolver),
    OsEnv(OsEnvVarResolver),
    RustEnv(RustEnvVarResolver),
    Prefixed(PrefixedVarResolver),
}

impl VarResolver {
    /// The model of this resolver.
    pub open spec fn model(&self) -> ResolverModel
        decreases self,
    {
        match self {
            VarResolver::AsIs(_) => ResolverModel::AsIs,
            VarResolver::Simple(s) => ResolverModel::Table(s.view()),
            VarResolver::OsEnv(s) => ResolverModel::Table(s.view()),
            VarResolver::RustEnv(s) => ResolverModel::Table(s.view()),
            VarResolver::Prefixed(p) => ResolverModel::Prefixed(p.prefix@, Box::new(p.resolver.model())),
        }
    }

    /// Resolves the variable with the given name.
    pub fn resolve_var(&self, v: &str) -> (r: Result<String, VarError>)
        ensures
            answer_matches(r, self.model().answer(v@)),
        decreases self,
    {
        match self {
            VarResolver::AsIs(s) => s.resolve_var(v),
            VarResolver::Simple(s) => s.resolve_var(v),
            VarResolver::OsEnv(s) => s.resolve_var(v),
            VarResolver::RustEnv(s) => s.resolve_var(v),
            VarResolver::Prefixed(p) => match strip_prefix(v, &p.prefix) {
                Some(rest) => p.resolver.resolve_var(rest),
                None => Err(VarError::NotPresent(String::from_str(v))),
            },
        }
    }
}


/// Tries resolvers in order; the first value found is the answer.
pub struct CombinedVarResolver {
    resolvers: Vec<VarResolver>,
}

impl CombinedVarResolver {
    /// The models of the resolvers, in the order they are tried.
    pub closed spec fn view(&self) -> Seq<ResolverModel> {
        self.resolvers@.map_values(|r: VarResolver| r.model())
    }

    /// A chain of the given resolvers, tried in the given order.
    pub fn new(resolvers: Vec<VarResolver>) -> (r: Self)
        ensures
            r.view() == resolvers@.map_values(|r: VarResolver| r.model()),
    {
        CombinedVarResolver { resolvers }
    }

    /// The first value that a resolver of the chain gives for `v`.
    pub fn resolve_var(&self, v: &str) -> (r: Result<String, VarError>)
        ensures
            answer_matches(r, chain_answer(self.view(), v@)),
    {
        let mut i: usize = 0;
        proof {
            assert(self.view().skip(0) =~= self.view());
        }
        while i < self.resolvers.len()
            invariant
                i <= self.resolvers.len(),
                chain_answer(self.view(), v@) == chain_answer(self.view().skip(i as int), v@),
            decreases self.resolvers.len() - i,
        {
            proof {
                assert(self.view().skip(i as int).drop_first() =~= self.view().skip(i + 1));
                assert(self.view().skip(i as int)[0] == self.resolvers@[i as int].model());
            }
            if let Ok(value) = self.resolvers[i].resolve_var(v) {
                return Ok(value);
            }
            i = i + 1;
        }
        Err(VarError::NotPresent(String::from_str(v)))
    }
}

/// Whether `c` is alphanumeric in Unicode's sense, for a char beyond ASCII.
pub uninterp spec fn unicode_alphanumeric(c: char) -> bool;

/// Whether `c` is a letter or a digit, where `wide` says it of the chars beyond ASCII.
pub open spec fn alphanumeric(c: char, wide: spec_fn(char) -> bool) -> bool {
    if (c as u32) < 128 {
        (48 <= (c as u32) <= 57) || (65 <= (c as u32) <= 90) || (97 <= (c as u32) <= 122)
    } else {
        wide(c)
    }
}

/// Whether `c` may stand in a bare `$name`.
pub open spec fn name_char(c: char, wide: spec_fn(char) -> bool) -> bool {
    alphanumeric(c, wide) || c == '_'
}

/// The first index from `from` on where `c` stands.
pub open spec fn find_char(s: Seq<char>, c: char, from: int) -> Option<int>
    decreases s.len() - from,
{
    if from < 0 || from >= s.len() {
        None
    } else if s[from] == c {
        Some(from)
    } else {
        find_char(s, c, from + 1)
    }
}

/// The first index from `from` on where `a` stands, followed by `b`.
pub open spec fn find_pair(s: Seq<char>, a: char, b: char, from: int) -> Option<int>
    decreases s.len() - from,
{
    if from < 0 || from + 1 >= s.len() {
        None
    } else if s[from] == a && s[from + 1] == b {
        Some(from)
    } else {
        find_pair(s, a, b, from + 1)
    }
}

/// The end of the run of name characters that starts at `from`.
pub open spec fn name_end(s: Seq<char>, from: int, wide: spec_fn(char) -> bool) -> int
    decreases s.len() - from,
{
    if from < 0 || from >= s.len() || !name_char(s[from], wide) {
        from
    } else {
        name_end(s, from + 1, wide)
    }
}

pub proof fn lemma_find_char_bounds(s: Seq<char>, c: char, from: int)
    ensures
        match find_char(s, c, from) {
            Some(j) => 0 <= from <= j < s.len() && s[j] == c,
            None => true,
        },
    decreases s.len() - from,
{
    if 0 <= from < s.len() && s[from] != c {
        lemma_find_char_bounds(s, c, from + 1);
    }
}

pub proof fn lemma_find_pair_bounds(s: Seq<char>, a: char, b: char, from: int)
    ensures
        match find_pair(s, a, b, from) {
            Some(k) => 0 <= from <= k && k + 1 < s.len(),
            None => true,
        },
    decreases s.len() - from,
{
    if 0 <= from && from + 1 < s.len() && !(s[from] == a && s[from + 1] == b) {
        lemma_find_pair_bounds(s, a, b, from + 1);
    }
}

pub proof fn lemma_name_end_bounds(s: Seq<char>, from: int, wide: spec_fn(char) -> bool)
    requires
        0 <= from <= s.len(),
    ensures
        from <= name_end(s, from, wide) <= s.len(),
    decreases s.len() - from,
{
    if from < s.len() && name_char(s[from], wide) {
        lemma_name_end_bounds(s, from + 1, wide);
    }
}

/// `p` in front of a text, or the error unchanged.
pub open spec fn in_front(p: Seq<char>, r: Result<Seq<char>, Seq<char>>) -> Result<Seq<char>, Seq<char>> {
    match r {
        Ok(t) => Ok(p + t),
        Err(e) => Err(e),
    }
}

/// One pass of substitution over `s`, left to right, through the chain:
/// `${name}` and `${name:-default}` (the default taken when the name is missing),
/// a bare `$name` of name characters, `$$` for one `$`; a `$` that starts none of
/// these, and `${` that no `}` closes, stay as they are. The first missing name
/// without a default is the error. `wide` tells which chars beyond ASCII are alphanumeric.
pub open spec fn shell_subst(s: Seq<char>, chain: Seq<ResolverModel>, wide: spec_fn(char) -> bool) -> Result<Seq<char>, Seq<char>>
    decreases s.len(),
{
    if s.len() == 0 {
        Ok(Seq::empty())
    } else if s[0] != '$' {
        in_front(s.take(1), shell_subst(s.skip(1), chain, wide))
    } else if s.len() >= 2 && s[1] == '{' {
        proof {
            lemma_find_char_bounds(s, '}', 2);
        }
        match find_char(s, '}', 2) {
            Some(j) => {
                proof {
                    lemma_find_pair_bounds(s.take(j), ':', '-', 0);
                }
                let k = find_pair(s.take(j), ':', '-', 0);
                let split = match k {
                    Some(k) => k != 2,
                    None => false,
                };
                let name = if split { s.subrange(2, k->0) } else { s.subrange(2, j) };
                let rest = shell_subst(s.skip(j + 1), chain, wide);
                match chain_answer(chain, name) {
                    Ok(v) => in_front(v, rest),
                    Err(e) => if split { in_front(s.subrange(k->0 + 2, j), rest) } else { Err(e) },
                }
            },
            None => in_front(s.take(2), shell_subst(s.skip(2), chain, wide)),
        }
    } else if s.len() >= 2 && name_char(s[1], wide) {
        proof {
            lemma_name_end_bounds(s, 2, wide);
        }
        let e = name_end(s, 2, wide);
        match chain_answer(chain, s.subrange(1, e)) {
            Ok(v) => in_front(v, shell_subst(s.skip(e), chain, wide)),
            Err(x) => Err(x),
        }
    } else if s.len() >= 2 && s[1] == '$' {
        in_front(seq!['$'], shell_subst(s.skip(2), chain, wide))
    } else {
        in_front(seq!['$'], shell_subst(s.skip(1), chain, wide))
    }
}

/// The number of passes after which expansion stops even if the text still changes.
pub const MAX_PASSES: usize = 16;

/// Substitution repeated until the text stays the same, for at most `n` more passes;
/// once they are spent, the last text is the result.
pub open spec fn expand_passes(s: Seq<char>, chain: Seq<ResolverModel>, n: nat) -> Result<Seq<char>, Seq<char>>
    decreases n,
{
    if n == 0 {
        Ok(s)
    } else {
        match shell_subst(s, chain, |c: char| unicode_alphanumeric(c)) {
            Err(e) => Err(e),
            Ok(t) => if t == s { Ok(t) } else { expand_passes(t, chain, (n - 1) as nat) },
        }
    }
}

/// What expanding `s` through `chain` gives.
pub open spec fn expansion(s: Seq<char>, chain: Seq<ResolverModel>) -> Result<Seq<char>, Seq<char>> {
    expand_passes(s, chain, MAX_PASSES as nat)
}

/// Expands variables in strings with the help of variable resolvers.
pub struct VarExpander {
    resolver: CombinedVarResolver,
}

impl VarExpander {
    /// The models of the resolvers, in the order they are tried.
    pub closed spec fn view(&self) -> Seq<ResolverModel> {
        self.resolver.view()
    }

    /// An expander over the given resolvers, tried in the given order.
    pub fn new(resolvers: Vec<VarResolver>) -> (r: Self)
        ensures
            r.view() == resolvers@.map_values(|r: VarResolver| r.model()),
    {
        VarExpander { resolver: CombinedVarResolver::new(resolvers) }
    }

    /// The value of `v` for a substitution: always a value when there is one.
    pub fn resolve(&self, v: &str) -> (r: Result<Option<String>, VarError>)
        ensures
            match (r, chain_answer(self.view(), v@)) {
                (Ok(Some(s)), Ok(t)) => s@ == t,
                (Err(e), Err(m)) => e.missing() == m,
                _ => false,
            },
    {
        match self.resolver.resolve_var(v) {
            Ok(value) => Ok(Some(value)),
            Err(e) => Err(e),
        }
    }

    /// Expands all variables of `s`, repeating until the text stays the same.
    pub fn expand(&self, s: &str) -> (r: Result<String, VarError>)
        ensures
            answer_matches(r, expansion(s@, self.view())),
    {
        let mut current = String::from_str(s);
        let mut n: usize = MAX_PASSES;
        while n > 0
            invariant
                n <= MAX_PASSES,
                expansion(s@, self.view()) == expand_passes(current@, self.view(), n as nat),
            decreases n,
        {
            let next = substitute(current.as_str(), self);
            match next {
                Err(e) => {
                    return Err(e);
                },
                Ok(t) => {
                    if t == current {
                        return Ok(t);
                    }
                    current = t;
                },
            }
            n = n - 1;
        }
        Ok(current)
    }
}

/// Relies on `shellexpand::env_with_context`: one pass of substitution as `shell_subst`
/// states it, with `resolve` as the lookup (which never answers "set but empty"), and
/// with `char::is_alphanumeric` (which shellexpand uses for bare names) beyond ASCII
/// named `unicode_alphanumeric`. An error is the lookup's own error, taken out of
/// shellexpand's `LookupError`.
#[verifier::external_body]
fn substitute(s: &str, expander: &VarExpander) -> (r: Result<String, VarError>)
    ensures
        answer_matches(r, shell_subst(s@, expander.view(), |c: char| unicode_alphanumeric(c))),
{
    shellexpand::env_with_context(s, |v| expander.resolve(v)).map(|c| c.into_owned()).map_err(|e| e.cause)
}

} // verus!
