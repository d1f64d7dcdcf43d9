//! The launchable-command table: named commands, duplicate-name removal and
//! environment-variable expansion.
//!
//! A command names a program and its arguments. The table keeps at most one
//! command per name: building it keeps the first occurrence of each name,
//! merging another table into it keeps the last. A `$name` that forms a whole
//! program or argument string is replaced by the value the environment table
//! gives that name; an undefined name is left as it stands.

use vstd::prelude::*;
use crate::strutil::str_eq;

verus! {

/// One launchable command.
#[derive(Debug)]
pub struct CommandSpec {
    pub name: String,
    pub program: String,
    pub args: Vec<String>,
}

/// Mathematical model of a command.
pub ghost struct CommandModel {
    pub name: Seq<char>,
    pub program: Seq<char>,
    pub args: Seq<Seq<char>>,
}

impl View for CommandSpec {
    type V = CommandModel;

    open spec fn view(&self) -> CommandModel {
        CommandModel { name: self.name@, program: self.program@, args: self.args.deep_view() }
    }
}

impl DeepView for CommandSpec {
    type V = CommandModel;

    open spec fn deep_view(&self) -> CommandModel {
        self.view()
    }
}

impl CommandSpec {
    pub fn new(name: String, program: String, args: Vec<String>) -> (cmd: CommandSpec)
        ensures
            cmd@ == (CommandModel { name: name@, program: program@, args: args.deep_view() }),
    {
        CommandSpec { name, program, args }
    }

    pub fn name(&self) -> (r: &str)
        ensures
            r@ == self@.name,
    {
        self.name.as_str()
    }

    pub fn program(&self) -> (r: &str)
        ensures
            r@ == self@.program,
    {
        self.program.as_str()
    }

    pub fn args(&self) -> (r: &Vec<String>)
        ensures
            r.deep_view() == self@.args,
    {
        &self.args
    }

    /// A copy equal to this command under the model.
    fn copied(&self) -> (r: CommandSpec)
        ensures
            r@ == self@,
    {
        let mut args: Vec<String> = Vec::new();
        let m = self.args.len();
        let mut j: usize = 0;
        while j < m
            invariant
                j <= m,
                m == self.args@.len(),
                args.deep_view() =~= self.args.deep_view().take(j as int),
            decreases m - j,
        {
            let ghost prev = args@;
            proof {
                assert(args.deep_view().len() == prev.len());
                assert(prev.len() == j);
            }
            let value = self.args[j].clone();
            args.push(value);
            proof {
                assert forall|k: int|
                    0 <= k < j + 1 implies args.deep_view()[k] == self.args.deep_view().take(
                    j as int + 1,
                )[k] by {
                    assert(args@[k] == prev.push(value)[k]);
                    if k < j {
                        assert(prev.push(value)[k] == prev[k]);
                        assert(prev[k]@ == self.args.deep_view().take(j as int)[k]);
                    }
                }
                assert(args.deep_view() =~= self.args.deep_view().take(j as int + 1));
            }
            j = j + 1;
        }
        let r = CommandSpec { name: self.name.clone(), program: self.program.clone(), args };
        proof {
            assert(r@.args =~= self@.args);
        }
        r
    }
}

/// One environment-table entry.
#[derive(Debug)]
pub struct EnvVar {
    pub name: String,
    pub value: String,
}

/// Mathematical model of an entry.
pub ghost struct EnvPair {
    pub name: Seq<char>,
    pub value: Seq<char>,
}

impl View for EnvVar {
    type V = EnvPair;

    open spec fn view(&self) -> EnvPair {
        EnvPair { name: self.name@, value: self.value@ }
    }
}

impl DeepView for EnvVar {
    type V = EnvPair;

    open spec fn deep_view(&self) -> EnvPair {
        self.view()
    }
}

/// The substitution table for `$name` expansion. A lookup takes the first
/// entry with the asked-for name.
#[derive(Debug)]
pub struct EnvVars {
    pub vars: Vec<EnvVar>,
}

impl View for EnvVars {
    type V = Seq<EnvPair>;

    open spec fn view(&self) -> Seq<EnvPair> {
        self.vars.deep_view()
    }
}

/// The value of the first entry with this name.
pub open spec fn env_lookup(env: Seq<EnvPair>, name: Seq<char>) -> Option<Seq<char>>
    decreases env.len(),
{
    if env.len() == 0 {
        None
    } else if env[0].name == name {
        Some(env[0].value)
    } else {
        env_lookup(env.drop_first(), name)
    }
}

proof fn lemma_env_lookup_from_index(env: Seq<EnvPair>, name: Seq<char>, i: int)
    requires
        0 <= i < env.len(),
        env[i].name == name,
        forall|j: int| 0 <= j < i ==> env[j].name != name,
    ensures
        env_lookup(env, name) == Some(env[i].value),
    decreases i,
{
    if i > 0 {
        assert(forall|j: int|
            0 <= j < i - 1 ==> env.drop_first()[j] == env[j + 1] && env[j + 1].name != name);
        lemma_env_lookup_from_index(env.drop_first(), name, i - 1);
        assert(env.drop_first()[i - 1] == env[i]);
    }
}

proof fn lemma_env_lookup_none(env: Seq<EnvPair>, name: Seq<char>)
    requires
        forall|j: int| 0 <= j < env.len() ==> env[j].name != name,
    ensures
        env_lookup(env, name) is None,
    decreases env.len(),
{
    if env.len() > 0 {
        assert(forall|j: int|
            0 <= j < env.len() - 1 ==> env.drop_first()[j] == env[j + 1] && env[j + 1].name
                != name);
        lemma_env_lookup_none(env.drop_first(), name);
    }
}

impl EnvVars {
    /// An empty table.
    pub fn new() -> (env: EnvVars)
        ensures
            env@.len() == 0,
    {
        EnvVars { vars: Vec::new() }
    }

    /// Append an entry; a lookup still answers for the first entry of a name.
    pub fn push(&mut self, name: String, value: String)
        ensures
            final(self)@ =~= old(self)@.push(EnvPair { name: name@, value: value@ }),
    {
        self.vars.push(EnvVar { name, value });
    }

    /// The value bound to this name, if the table holds one.
    pub fn get(&self, name: &str) -> (r: Option<&String>)
        ensures
            match r {
                Some(v) => env_lookup(self@, name@) == Some(v@),
                None => env_lookup(self@, name@) is None,
            },
    {
        let n = self.vars.len();
        let mut i: usize = 0;
        while i < n
            invariant
                i <= n,
                n == self.vars@.len(),
                forall|j: int| 0 <= j < i ==> self@[j].name != name@,
            decreases n - i,
        {
            if str_eq(self.vars[i].name.as_str(), name) {
                proof {
                    lemma_env_lookup_from_index(self@, name@, i as int);
                }
                return Some(&self.vars[i].value);
            }
            i = i + 1;
        }
        proof {
            lemma_env_lookup_none(self@, name@);
        }
        None
    }
}

/// `$name` expansion on one string: a string that is exactly a dollar sign
/// followed by a name bound in the table becomes that name's value; every
/// other string — including a lone dollar sign and a `$name` with an unbound
/// name — stays as it is.
pub open spec fn expand_in_string(s: Seq<char>, env: Seq<EnvPair>) -> Seq<char> {
    if s.len() > 1 && s[0] == '$' {
        match env_lookup(env, s.subrange(1, s.len() as int)) {
            Some(v) => v,
            None => s,
        }
    } else {
        s
    }
}

/// Expansion applied to a whole command: the program and each argument are
/// expanded, the name is kept.
pub open spec fn expand_model(c: CommandModel, env: Seq<EnvPair>) -> CommandModel {
    CommandModel {
        name: c.name,
        program: expand_in_string(c.program, env),
        args: c.args.map_values(|a: Seq<char>| expand_in_string(a, env)),
    }
}

/// Expansion applied to a whole table of commands.
pub open spec fn expand_all(s: Seq<CommandModel>, env: Seq<EnvPair>) -> Seq<CommandModel> {
    s.map_values(|c: CommandModel| expand_model(c, env))
}

/// Replace a whole-string `$name` by its value from the table; leave every
/// other string unchanged.
pub fn expand_var_in_string(s: String, env: &EnvVars) -> (r: String)
    ensures
        r@ == expand_in_string(s@, env@),
{
    let n = s.as_str().unicode_len();
    if n <= 1 {
        return s;
    }
    if s.as_str().get_char(0) == '$' {
        let rest = s.as_str().substring_char(1, n);
        match env.get(rest) {
            Some(value) => value.clone(),
            None => s,
        }
    } else {
        s
    }
}

/// There is a command with this name.
pub open spec fn contains_name(s: Seq<CommandModel>, name: Seq<char>) -> bool {
    exists|i: int| 0 <= i < s.len() && s[i].name == name
}

/// The first command with this name.
pub open spec fn find_first(s: Seq<CommandModel>, name: Seq<char>) -> Option<CommandModel>
    decreases s.len(),
{
    if s.len() == 0 {
        None
    } else if s[0].name == name {
        Some(s[0])
    } else {
        find_first(s.drop_first(), name)
    }
}

/// The table with only the first command of each name kept, in order.
pub open spec fn dedup_first(s: Seq<CommandModel>) -> Seq<CommandModel>
    decreases s.len(),
{
    if s.len() == 0 {
        Seq::empty()
    } else {
        dedup_first(s.drop_last()) + if contains_name(s.drop_last(), s.last().name) {
            Seq::empty()
        } else {
            seq![s.last()]
        }
    }
}

/// The table with only the last command of each name kept, in order.
pub open spec fn dedup_last(s: Seq<CommandModel>) -> Seq<CommandModel> {
    dedup_first(s.reverse()).reverse()
}

proof fn lemma_contains_name_concat(a: Seq<CommandModel>, b: Seq<CommandModel>, name: Seq<char>)
    ensures
        contains_name(a + b, name) == (contains_name(a, name) || contains_name(b, name)),
{
    if contains_name(a, name) {
        let i = choose|i: int| 0 <= i < a.len() && a[i].name == name;
        assert((a + b)[i] == a[i]);
    }
    if contains_name(b, name) {
        let i = choose|i: int| 0 <= i < b.len() && b[i].name == name;
        assert((a + b)[a.len() + i] == b[i]);
    }
    if contains_name(a + b, name) {
        let i = choose|i: int| 0 <= i < (a + b).len() && (a + b)[i].name == name;
        if i < a.len() {
            assert(a[i] == (a + b)[i]);
        } else {
            assert(b[i - a.len()] == (a + b)[i]);
        }
    }
}

proof fn lemma_contains_name_single(c: CommandModel, name: Seq<char>)
    ensures
        contains_name(seq![c], name) == (c.name == name),
{
    if c.name == name {
        assert(seq![c][0].name == name);
    }
    if contains_name(seq![c], name) {
        let i = choose|i: int| 0 <= i < seq![c].len() && seq![c][i].name == name;
        assert(seq![c][i] == c);
    }
}

/// Law: removing duplicates does not change which names the table holds — no
/// command name is lost and none appears.
pub proof fn lemma_dedup_first_names(s: Seq<CommandModel>, name: Seq<char>)
    ensures
        contains_name(dedup_first(s), name) == contains_name(s, name),
    decreases s.len(),
{
    if s.len() == 0 {
        assert(!contains_name(s, name));
        assert(!contains_name(dedup_first(s), name));
    } else {
        let prefix = s.drop_last();
        let last = s.last();
        lemma_dedup_first_names(prefix, name);
        lemma_contains_name_single(last, name);
        assert(s =~= prefix + seq![last]);
        lemma_contains_name_concat(prefix, seq![last], name);
        if contains_name(prefix, last.name) {
            lemma_contains_name_concat(dedup_first(prefix), Seq::empty(), name);
            assert(!contains_name(Seq::empty(), name));
            // the dropped last occurrence is covered by the earlier one
            if last.name == name {
                assert(contains_name(prefix, name));
            }
        } else {
            lemma_contains_name_concat(dedup_first(prefix), seq![last], name);
        }
    }
}

/// No two commands share a name.
pub open spec fn unique_names(s: Seq<CommandModel>) -> bool {
    forall|i: int, j: int| 0 <= i < j < s.len() ==> s[i].name != s[j].name
}

/// Law: duplicate removal leaves at most one command per name.
pub proof fn lemma_dedup_first_unique(s: Seq<CommandModel>)
    ensures
        unique_names(dedup_first(s)),
    decreases s.len(),
{
    if s.len() > 0 {
        let prefix = s.drop_last();
        let d = dedup_first(prefix);
        let dd = dedup_first(s);
        lemma_dedup_first_unique(prefix);
        if contains_name(prefix, s.last().name) {
            assert(dd =~= d);
        } else {
            assert forall|i: int, j: int| 0 <= i < j < dd.len() implies dd[i].name
                != dd[j].name by {
                if j < d.len() {
                    assert(dd[i] == d[i] && dd[j] == d[j]);
                } else {
                    assert(dd[i] == d[i]);
                    assert(dd[j] == s.last());
                    if d[i].name == s.last().name {
                        assert(contains_name(d, s.last().name));
                        lemma_dedup_first_names(prefix, s.last().name);
                    }
                }
            }
        }
    }
}

/// Law: keeping the last command of each name also leaves at most one
/// command per name.
pub proof fn lemma_dedup_last_unique(s: Seq<CommandModel>)
    ensures
        unique_names(dedup_last(s)),
{
    lemma_dedup_first_unique(s.reverse());
    let d = dedup_first(s.reverse());
    let r = d.reverse();
    assert forall|i: int, j: int| 0 <= i < j < r.len() implies r[i].name != r[j].name by {
        assert(r[i] == d[r.len() - 1 - i]);
        assert(r[j] == d[r.len() - 1 - j]);
    }
}

proof fn lemma_find_first_from_index(s: Seq<CommandModel>, name: Seq<char>, i: int)
    requires
        0 <= i < s.len(),
        s[i].name == name,
        forall|j: int| 0 <= j < i ==> s[j].name != name,
    ensures
        find_first(s, name) == Some(s[i]),
    decreases i,
{
    if i > 0 {
        assert(forall|j: int|
            0 <= j < i - 1 ==> s.drop_first()[j] == s[j + 1] && s[j + 1].name != name);
        lemma_find_first_from_index(s.drop_first(), name, i - 1);
        assert(s.drop_first()[i - 1] == s[i]);
    }
}

proof fn lemma_find_first_none(s: Seq<CommandModel>, name: Seq<char>)
    requires
        forall|j: int| 0 <= j < s.len() ==> s[j].name != name,
    ensures
        find_first(s, name) is None,
    decreases s.len(),
{
    if s.len() > 0 {
        assert(forall|j: int|
            0 <= j < s.len() - 1 ==> s.drop_first()[j] == s[j + 1] && s[j + 1].name != name);
        lemma_find_first_none(s.drop_first(), name);
    }
}

/// Extending the table by one command keeps it when its name is new and
/// drops it when the name was already present.
proof fn lemma_dedup_first_step(s: Seq<CommandModel>, i: int)
    requires
        0 <= i < s.len(),
    ensures
        dedup_first(s.take(i + 1)) == dedup_first(s.take(i)) + if contains_name(
            s.take(i),
            s[i].name,
        ) {
            Seq::<CommandModel>::empty()
        } else {
            seq![s[i]]
        },
{
    let t = s.take(i + 1);
    assert(t.drop_last() =~= s.take(i));
    assert(t.last() == s[i]);
}

fn contains_name_exec(v: &Vec<CommandSpec>, name: &str) -> (r: bool)
    ensures
        r == contains_name(v.deep_view(), name@),
{
    let n = v.len();
    let mut i: usize = 0;
    while i < n
        invariant
            i <= n,
            n == v@.len(),
            forall|j: int| 0 <= j < i ==> v.deep_view()[j].name != name@,
        decreases n - i,
    {
        if str_eq(v[i].name.as_str(), name) {
            proof {
                assert(v.deep_view()[i as int].name == name@);
            }
            return true;
        }
        i = i + 1;
    }
    false
}

/// The command table.
#[derive(Debug)]
pub struct Commands {
    pub inner: Vec<CommandSpec>,
}

impl View for Commands {
    type V = Seq<CommandModel>;

    open spec fn view(&self) -> Seq<CommandModel> {
        self.inner.deep_view()
    }
}

impl Commands {
    /// Build a table from a list, keeping the first command of each name.
    pub fn new(inner: Vec<CommandSpec>) -> (cmds: Commands)
        ensures
            cmds@ == dedup_first(inner.deep_view()),
    {
        let mut cmds = Commands { inner };
        cmds.dedup_by_name();
        cmds
    }

    /// How many commands the table holds.
    pub fn len(&self) -> (n: usize)
        ensures
            n == self@.len(),
    {
        self.inner.len()
    }

    /// The command at this position.
    pub fn get(&self, i: usize) -> (cmd: &CommandSpec)
        requires
            i < self@.len(),
        ensures
            cmd@ == self@[i as int],
    {
        &self.inner[i]
    }

    /// The first command, if the table holds any.
    pub fn first(&self) -> (r: Option<&CommandSpec>)
        ensures
            match r {
                Some(cmd) => self@.len() > 0 && cmd@ == self@[0],
                None => self@.len() == 0,
            },
    {
        if self.inner.len() > 0 {
            Some(&self.inner[0])
        } else {
            None
        }
    }

    /// The first command with this name.
    pub fn find_by_name(&self, name: &str) -> (r: Option<&CommandSpec>)
        ensures
            match r {
                Some(cmd) => find_first(self@, name@) == Some(cmd@) && contains_name(self@, name@),
                None => find_first(self@, name@) is None && !contains_name(self@, name@),
            },
    {
        let n = self.inner.len();
        let mut i: usize = 0;
        while i < n
            invariant
                i <= n,
                n == self.inner@.len(),
                forall|j: int| 0 <= j < i ==> self@[j].name != name@,
            decreases n - i,
        {
            if str_eq(self.inner[i].name.as_str(), name) {
                proof {
                    lemma_find_first_from_index(self@, name@, i as int);
                }
                return Some(&self.inner[i]);
            }
            i = i + 1;
        }
        proof {
            lemma_find_first_none(self@, name@);
        }
        None
    }

    /// The position of the first command with this name.
    pub fn position_by_name(&self, name: &str) -> (r: Option<usize>)
        ensures
            match r {
                Some(i) => i < self@.len() && find_first(self@, name@) == Some(self@[i as int])
                    && self@[i as int].name == name@ && contains_name(self@, name@),
                None => find_first(self@, name@) is None && !contains_name(self@, name@),
            },
    {
        let n = self.inner.len();
        let mut i: usize = 0;
        while i < n
            invariant
                i <= n,
                n == self.inner@.len(),
                forall|j: int| 0 <= j < i ==> self@[j].name != name@,
            decreases n - i,
        {
            if str_eq(self.inner[i].name.as_str(), name) {
                proof {
                    lemma_find_first_from_index(self@, name@, i as int);
                }
                return Some(i);
            }
            i = i + 1;
        }
        proof {
            lemma_find_first_none(self@, name@);
        }
        None
    }

    /// Merge another table into this one; of commands sharing a name, the
    /// one arriving last wins.
    pub fn extend(&mut self, other: Commands)
        ensures
            final(self)@ == dedup_last(old(self)@ + other@),
    {
        let mut other = other;
        let ghost more = other@;
        self.inner.append(&mut other.inner);
        proof {
            assert(self@ =~= old(self)@ + more);
        }
        self.dedup_by_name_keep_last();
    }

    /// Keep the first command of each name, in order.
    pub fn dedup_by_name(&mut self)
        ensures
            final(self)@ == dedup_first(old(self)@),
    {
        let ghost models = self@;
        let n = self.inner.len();
        let mut kept: Vec<CommandSpec> = Vec::new();
        let mut i: usize = 0;
        proof {
            assert(models.take(0) =~= Seq::<CommandModel>::empty());
            assert(kept.deep_view() =~= dedup_first(models.take(0)));
        }
        while i < n
            invariant
                i <= n,
                n == self.inner@.len(),
                self@ == models,
                kept.deep_view() == dedup_first(models.take(i as int)),
            decreases n - i,
        {
            let ghost pre = kept.deep_view();
            let dup = contains_name_exec(&kept, self.inner[i].name.as_str());
            proof {
                lemma_dedup_first_names(models.take(i as int), models[i as int].name);
                lemma_dedup_first_step(models, i as int);
            }
            if !dup {
                let cmd = self.inner[i].copied();
                kept.push(cmd);
                proof {
                    assert(kept.deep_view() =~= pre + seq![models[i as int]]);
                }
            } else {
                proof {
                    assert(kept.deep_view() =~= pre + Seq::<CommandModel>::empty());
                }
            }
            i = i + 1;
        }
        proof {
            assert(models.take(n as int) =~= models);
        }
        self.inner = kept;
    }

    /// Keep the last command of each name, in order.
    pub fn dedup_by_name_keep_last(&mut self)
        ensures
            final(self)@ == dedup_last(old(self)@),
    {
        self.reverse_inner();
        self.dedup_by_name();
        self.reverse_inner();
    }

    fn reverse_inner(&mut self)
        ensures
            final(self)@ == old(self)@.reverse(),
    {
        let ghost models = self@;
        let n = self.inner.len();
        let mut out: Vec<CommandSpec> = Vec::new();
        let mut i: usize = n;
        proof {
            assert(self@ =~= models.take(n as int));
        }
        while i > 0
            invariant
                i <= n,
                i == self.inner@.len(),
                n == models.len(),
                self@ =~= models.take(i as int),
                out.deep_view().len() == n - i,
                forall|k: int| 0 <= k < n - i ==> out.deep_view()[k] == models[n - 1 - k],
            decreases i,
        {
            let ghost pre = out.deep_view();
            let cmd = self.inner.pop().unwrap();
            proof {
                assert(models.take(i as int)[i - 1] == models[i - 1]);
                assert(cmd@ == models[i - 1]);
                assert(self@ =~= models.take(i as int - 1));
            }
            out.push(cmd);
            proof {
                assert(out.deep_view() =~= pre.push(models[i - 1]));
            }
            i = i - 1;
        }
        proof {
            assert(out.deep_view() =~= models.reverse());
        }
        self.inner = out;
    }

    /// Expand `$name` in every program and argument.
    pub fn expand_vars(self, env: EnvVars) -> (r: Commands)
        ensures
            r@ == expand_all(self@, env@),
    {
        let n = self.inner.len();
        let mut out: Vec<CommandSpec> = Vec::new();
        let mut i: usize = 0;
        while i < n
            invariant
                i <= n,
                n == self.inner@.len(),
                out.deep_view().len() == i,
                forall|k: int|
                    0 <= k < i ==> out.deep_view()[k] == expand_model(self@[k], env@),
            decreases n - i,
        {
            let cmd = &self.inner[i];
            let name = cmd.name.clone();
            let program = expand_var_in_string(cmd.program.clone(), &env);
            let m = cmd.args.len();
            let mut args: Vec<String> = Vec::new();
            let mut j: usize = 0;
            while j < m
                invariant
                    j <= m,
                    m == cmd.args@.len(),
                    args.deep_view().len() == j,
                    forall|k: int|
                        0 <= k < j ==> args.deep_view()[k] == expand_in_string(
                            cmd.args.deep_view()[k],
                            env@,
                        ),
                decreases m - j,
            {
                let ghost pre = args.deep_view();
                let value = expand_var_in_string(cmd.args[j].clone(), &env);
                let ghost vm = value@;
                args.push(value);
                proof {
                    assert(args.deep_view() =~= pre.push(vm));
                    assert(vm == expand_in_string(cmd.args.deep_view()[j as int], env@));
                }
                j = j + 1;
            }
            let expanded = CommandSpec { name, program, args };
            proof {
                assert(expanded@.args =~= expand_model(self@[i as int], env@).args);
                assert(expanded@ == expand_model(self@[i as int], env@));
            }
            let ghost pre_out = out.deep_view();
            out.push(expanded);
            proof {
                assert(out.deep_view() =~= pre_out.push(expand_model(self@[i as int], env@)));
            }
            i = i + 1;
        }
        proof {
            assert(out.deep_view() =~= expand_all(self@, env@));
        }
        Commands { inner: out }
    }
}

} // verus!
