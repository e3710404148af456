//! Notify commands: external programs run after a target's run, with every string
//! expanded strictly (an unknown variable fails that command) before it is run.

use crate::config::NotifyCommandConfig;
use crate::vars::{answer_matches, expansion, ResolverModel, VarError, VarExpander};
use vstd::prelude::*;
use vstd::string::*;

verus! {

/// The kind of notification.
#[derive(Clone, Copy, Debug)]
pub enum NotifyKind {
    Failure,
    Success,
}

/// A command to run as a notification.
#[derive(Debug)]
pub struct NotifyCommand {
    args: Vec<String>,
    directory: Option<String>,
    env: Vec<(String, String)>,
    kind: Option<NotifyKind>,
    path: String,
}

/// The strings of a command: path, arguments, working directory, environment.
pub type CommandModel = (Seq<char>, Seq<Seq<char>>, Option<Seq<char>>, Seq<(Seq<char>, Seq<char>)>);

/// A command with every string expanded, ready to run.
#[derive(Debug)]
pub struct CommandLine {
    pub path: String,
    pub args: Vec<String>,
    pub directory: Option<String>,
    pub env: Vec<(String, String)>,
}

pub open spec fn strings_view(v: Seq<String>) -> Seq<Seq<char>> {
    v.map_values(|s: String| s@)
}

pub open spec fn opt_view(o: Option<String>) -> Option<Seq<char>> {
    match o {
        Some(s) => Some(s@),
        None => None,
    }
}

impl CommandLine {
    pub open spec fn view(&self) -> CommandModel {
        (self.path@, strings_view(self.args@), opt_view(self.directory), crate::vars::pairs_view(self.env@))
    }
}

/// Each text expanded in order; the first failure is the error.
pub open spec fn expand_each(xs: Seq<Seq<char>>, chain: Seq<ResolverModel>) -> Result<Seq<Seq<char>>, Seq<char>>
    decreases xs.len(),
{
    if xs.len() == 0 {
        Ok(Seq::empty())
    } else {
        match expand_each(xs.drop_last(), chain) {
            Err(e) => Err(e),
            Ok(ys) => match expansion(xs.last(), chain) {
                Ok(y) => Ok(ys.push(y)),
                Err(e) => Err(e),
            },
        }
    }
}

/// The values of an environment expanded in order, the names kept.
pub open spec fn expand_values(xs: Seq<(Seq<char>, Seq<char>)>, chain: Seq<ResolverModel>) -> Result<Seq<(Seq<char>, Seq<char>)>, Seq<char>>
    decreases xs.len(),
{
    if xs.len() == 0 {
        Ok(Seq::empty())
    } else {
        match expand_values(xs.drop_last(), chain) {
            Err(e) => Err(e),
            Ok(ys) => match expansion(xs.last().1, chain) {
                Ok(y) => Ok(ys.push((xs.last().0, y))),
                Err(e) => Err(e),
            },
        }
    }
}

/// The command with path, arguments, directory and environment values expanded, in that
/// order; the first failure is the error.
pub open spec fn prepared(c: CommandModel, chain: Seq<ResolverModel>) -> Result<CommandModel, Seq<char>> {
    match expansion(c.0, chain) {
        Err(e) => Err(e),
        Ok(path) => match expand_each(c.1, chain) {
            Err(e) => Err(e),
            Ok(args) => match (match c.2 {
                Some(d) => match expansion(d, chain) {
                    Ok(x) => Ok(Some(x)),
                    Err(e) => Err(e),
                },
                None => Ok(None),
            }) {
                Err(e) => Err(e),
                Ok(dir) => match expand_values(c.3, chain) {
                    Err(e) => Err(e),
                    Ok(env) => Ok((path, args, dir, env)),
                },
            },
        },
    }
}

impl NotifyCommand {
    pub closed spec fn view(&self) -> CommandModel {
        (self.path@, strings_view(self.args@), opt_view(self.directory), crate::vars::pairs_view(self.env@))
    }

    pub closed spec fn kind_of(&self) -> Option<NotifyKind> {
        self.kind
    }

    /// The command that `config` describes, with no environment and no kind.
    pub fn from_config(config: &NotifyCommandConfig) -> (r: Self)
        ensures
            r.view() == (config.path@, strings_view(config.args@), opt_view(config.directory),
                Seq::<(Seq<char>, Seq<char>)>::empty()),
            r.kind_of() is None,
    {
        let mut args: Vec<String> = Vec::new();
        let mut i: usize = 0;
        while i < config.args.len()
            invariant
                i <= config.args.len(),
                strings_view(args@) == strings_view(config.args@.take(i as int)),
            decreases config.args.len() - i,
        {
            args.push(config.args[i].clone());
            assert(strings_view(config.args@.take(i + 1)) =~= strings_view(config.args@.take(i as int)).push(config.args@[i as int]@));
            assert(strings_view(args@) =~= strings_view(config.args@.take(i as int)).push(config.args@[i as int]@));
            i = i + 1;
        }
        assert(config.args@.take(config.args.len() as int) =~= config.args@);
        let directory = match &config.directory {
            Some(d) => Some(d.clone()),
            None => None,
        };
        let r = NotifyCommand { args, directory, env: Vec::new(), kind: None, path: config.path.clone() };
        assert(crate::vars::pairs_view(r.env@) =~= Seq::<(Seq<char>, Seq<char>)>::empty());
        r
    }

    /// Sets the kind of notification.
    pub fn kind(&mut self, kind: NotifyKind)
        ensures
            final(self).view() == old(self).view(),
            final(self).kind_of() == Some(kind),
    {
        self.kind = Some(kind);
    }

    /// Sets an environment variable of the command; a later value of a name wins.
    pub fn env(&mut self, key: &str, val: &str)
        ensures
            final(self).view() == (old(self).view().0, old(self).view().1, old(self).view().2, old(self).view().3.push((key@, val@))),
            final(self).kind_of() == old(self).kind_of(),
    {
        self.env.push((String::from_str(key), String::from_str(val)));
        assert(crate::vars::pairs_view(self.env@) =~= crate::vars::pairs_view(old(self).env@).push((key@, val@)));
    }

    /// The command with every string expanded strictly through `expander`.
    pub fn prepare(&self, expander: &VarExpander) -> (r: Result<CommandLine, VarError>)
        ensures
            match (r, prepared(self.view(), expander.view())) {
                (Ok(c), Ok(m)) => c.view() == m,
                (Err(e), Err(m)) => e.missing() == m,
                _ => false,
            },
    {
        let ghost chain = expander.view();
        let path = match expander.expand(self.path.as_str()) {
            Ok(p) => p,
            Err(e) => return Err(e),
        };
        let mut args: Vec<String> = Vec::new();
        let mut i: usize = 0;
        assert(strings_view(self.args@.take(0)) =~= Seq::<Seq<char>>::empty());
        assert(strings_view(args@) =~= Seq::<Seq<char>>::empty());
        while i < self.args.len()
            invariant
                i <= self.args.len(),
                chain == expander.view(),
                answer_matches(Ok(path), expansion(self.path@, chain)),
                expand_each(strings_view(self.args@.take(i as int)), chain) == Ok::<Seq<Seq<char>>, Seq<char>>(strings_view(args@)),
            decreases self.args.len() - i,
        {
            let ghost xs = strings_view(self.args@.take(i + 1));
            assert(xs.drop_last() =~= strings_view(self.args@.take(i as int)));
            assert(xs.last() == self.args@[i as int]@);
            let ghost before = strings_view(args@);
            match expander.expand(self.args[i].as_str()) {
                Ok(a) => {
                    args.push(a);
                    assert(strings_view(args@) =~= before.push(args@.last()@));
                },
                Err(e) => {
                    proof {
                        lemma_expand_each_prefix_err(strings_view(self.args@), chain, i + 1);
                        assert(strings_view(self.args@).take(i + 1) =~= xs);
                    }
                    return Err(e);
                },
            }
            i = i + 1;
        }
        assert(self.args@.take(self.args.len() as int) =~= self.args@);
        let directory = match &self.directory {
            Some(d) => match expander.expand(d.as_str()) {
                Ok(x) => Some(x),
                Err(e) => return Err(e),
            },
            None => None,
        };
        let mut env: Vec<(String, String)> = Vec::new();
        let mut k: usize = 0;
        assert(crate::vars::pairs_view(self.env@.take(0)) =~= Seq::<(Seq<char>, Seq<char>)>::empty());
        assert(crate::vars::pairs_view(env@) =~= Seq::<(Seq<char>, Seq<char>)>::empty());
        while k < self.env.len()
            invariant
                k <= self.env.len(),
                chain == expander.view(),
                answer_matches(Ok(path), expansion(self.path@, chain)),
                expand_each(strings_view(self.args@), chain) == Ok::<Seq<Seq<char>>, Seq<char>>(strings_view(args@)),
                match self.directory {
                    Some(d) => match directory {
                        Some(x) => expansion(d@, chain) == Ok::<Seq<char>, Seq<char>>(x@),
                        None => false,
                    },
                    None => directory is None,
                },
                expand_values(crate::vars::pairs_view(self.env@.take(k as int)), chain)
                    == Ok::<Seq<(Seq<char>, Seq<char>)>, Seq<char>>(crate::vars::pairs_view(env@)),
            decreases self.env.len() - k,
        {
            let ghost xs = crate::vars::pairs_view(self.env@.take(k + 1));
            assert(xs.drop_last() =~= crate::vars::pairs_view(self.env@.take(k as int)));
            assert(xs.last() == (self.env@[k as int].0@, self.env@[k as int].1@));
            let ghost before = crate::vars::pairs_view(env@);
            match expander.expand(self.env[k].1.as_str()) {
                Ok(v) => {
                    env.push((self.env[k].0.clone(), v));
                    assert(crate::vars::pairs_view(env@) =~= before.push((env@.last().0@, env@.last().1@)));
                },
                Err(e) => {
                    proof {
                        lemma_expand_values_prefix_err(crate::vars::pairs_view(self.env@), chain, k + 1);
                        assert(crate::vars::pairs_view(self.env@).take(k + 1) =~= xs);
                    }
                    return Err(e);
                },
            }
            k = k + 1;
        }
        assert(self.env@.take(self.env.len() as int) =~= self.env@);
        Ok(CommandLine { path, args, directory, env })
    }
}

proof fn lemma_expand_each_prefix_err(xs: Seq<Seq<char>>, chain: Seq<ResolverModel>, n: int)
    requires
        0 <= n <= xs.len(),
        expand_each(xs.take(n), chain) is Err,
    ensures
        expand_each(xs, chain) == expand_each(xs.take(n), chain),
    decreases xs.len() - n,
{
    if n < xs.len() {
        assert(xs.take(n + 1).drop_last() =~= xs.take(n));
        lemma_expand_each_prefix_err(xs, chain, n + 1);
    } else {
        assert(xs.take(n) =~= xs);
    }
}

proof fn lemma_expand_values_prefix_err(xs: Seq<(Seq<char>, Seq<char>)>, chain: Seq<ResolverModel>, n: int)
    requires
        0 <= n <= xs.len(),
        expand_values(xs.take(n), chain) is Err,
    ensures
        expand_values(xs, chain) == expand_values(xs.take(n), chain),
    decreases xs.len() - n,
{
    if n < xs.len() {
        assert(xs.take(n + 1).drop_last() =~= xs.take(n));
        lemma_expand_values_prefix_err(xs, chain, n + 1);
    } else {
        assert(xs.take(n) =~= xs);
    }
}

} // verus!
