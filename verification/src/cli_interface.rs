//! The interactive selector's decision logic and the front end's pure
//! helpers: resolving environments and tasks by name, laying out the
//! environment listing, and joining a trailing command line.
//!
//! Prompting the user, printing, and exiting the process are terminal
//! concerns and stay with the caller; everything that can be decided from
//! plain values is decided — and verified — here.

use vstd::prelude::*;

use crate::config::{Configuration, ConfigurationV, Environment, Task, TaskV};

verus! {

/// What the selector decides from the number of items alone: a one-item
/// collection resolves to its only entry without blocking on the terminal;
/// anything else needs a prompt.
#[derive(Clone, Copy, Debug, PartialEq, Eq, Structural)]
pub enum SelectStep {
    /// Take the item at this index, without prompting.
    Chosen(usize),
    /// Display the list and block until the user confirms or cancels.
    Prompt,
}

/// Decides whether a labeled collection resolves by itself: exactly one
/// item is taken as-is; any other count calls for an interactive prompt.
pub fn select_item(item_count: usize) -> (s: SelectStep)
    ensures
        s == (if item_count == 1 {
            SelectStep::Chosen(0)
        } else {
            SelectStep::Prompt
        }),
{
    if item_count == 1 {
        SelectStep::Chosen(0)
    } else {
        SelectStep::Prompt
    }
}

/// The environment at a chosen position.
pub fn select_environment<'a>(config: &'a Configuration, index: usize) -> (r: &'a Environment)
    requires
        index < config.environments@.len(),
    ensures
        *r == config.environments@[index as int].1,
{
    &config.environments[index].1
}

/// The task at a chosen position.
pub fn select_task<'a>(environment: &'a Environment, index: usize) -> (r: &'a Task)
    requires
        index < environment.tasks@.len(),
    ensures
        *r == environment.tasks@[index as int].1,
{
    &environment.tasks[index].1
}

/// The value bound to a name in an association list; as in a mapping, the
/// latest binding of the name wins.
pub open spec fn spec_lookup<V>(entries: Seq<(Seq<char>, V)>, name: Seq<char>) -> Option<V>
    decreases entries.len(),
{
    if entries.len() == 0 {
        None
    } else if entries.last().0 == name {
        Some(entries.last().1)
    } else {
        spec_lookup(entries.drop_last(), name)
    }
}

/// Looks a name up in a named-value list, latest binding first.
pub fn assoc_get<'a, T: DeepView>(entries: &'a Vec<(String, T)>, name: &String) -> (r: Option<
    &'a T,
>)
    ensures
        match r {
            Some(v) => spec_lookup(entries.deep_view(), name@) == Some(v.deep_view()),
            None => spec_lookup(entries.deep_view(), name@) is None,
        },
{
    let ghost m = entries.deep_view();
    let mut i: usize = entries.len();
    proof {
        assert(m.take(i as int) =~= m);
    }
    while i > 0
        invariant
            i <= entries.len(),
            m == entries.deep_view(),
            spec_lookup(m, name@) == spec_lookup(m.take(i as int), name@),
        decreases i,
    {
        i = i - 1;
        proof {
            assert(m.take(i + 1).last() == m[i as int]);
            assert(m.take(i + 1).drop_last() =~= m.take(i as int));
        }
        let pair = &entries[i];
        if pair.0 == *name {
            return Some(&pair.1);
        }
    }
    proof {
        assert(m.take(0) =~= Seq::<(Seq<char>, T::V)>::empty());
    }
    None
}

/// Resolves an explicitly named environment, if the configuration has one
/// of that name.
pub fn lookup_environment<'a>(config: &'a Configuration, name: &String) -> (r: Option<
    &'a Environment,
>)
    ensures
        match r {
            Some(e) => spec_lookup(config.deep_view().environments, name@) == Some(e.deep_view()),
            None => spec_lookup(config.deep_view().environments, name@) is None,
        },
{
    assoc_get(&config.environments, name)
}

/// Resolves an explicitly named task within an environment, if it has one
/// of that name.
pub fn lookup_task<'a>(environment: &'a Environment, name: &String) -> (r: Option<&'a Task>)
    ensures
        match r {
            Some(t) => spec_lookup(environment.deep_view().tasks, name@) == Some(t.deep_view()),
            None => spec_lookup(environment.deep_view().tasks, name@) is None,
        },
{
    assoc_get(&environment.tasks, name)
}

/// The labels of a named-value list, in order.
pub fn labels<T: DeepView>(entries: &Vec<(String, T)>) -> (names: Vec<String>)
    ensures
        names@.len() == entries.deep_view().len(),
        forall|i: int|
            0 <= i < names@.len() ==> names@[i]@ == entries.deep_view()[i].0,
{
    let mut names: Vec<String> = Vec::new();
    let mut i: usize = 0;
    while i < entries.len()
        invariant
            i <= entries.len(),
            names@.len() == i,
            forall|j: int| 0 <= j < i ==> names@[j]@ == entries.deep_view()[j].0,
        decreases entries.len() - i,
    {
        names.push(entries[i].0.clone());
        i = i + 1;
    }
    names
}

/// The listing line that opens one environment: its name, annotated when
/// it is the default environment.
pub open spec fn spec_env_header(name: Seq<char>, default_environment: Option<Seq<char>>) -> Seq<
    char,
> {
    if default_environment == Some(name) {
        name + "  [default]"@
    } else {
        name
    }
}

/// The indented listing lines for an environment's tasks from index `i` on.
pub open spec fn spec_task_lines(tasks: Seq<(Seq<char>, TaskV)>, i: int) -> Seq<Seq<char>>
    decreases tasks.len() - i,
{
    if i < 0 || i >= tasks.len() {
        Seq::empty()
    } else {
        seq!["  - "@ + tasks[i].0] + spec_task_lines(tasks, i + 1)
    }
}

/// The listing lines for the environments from index `i` on: each
/// environment's header line, then its task lines.
pub open spec fn spec_listing(c: ConfigurationV, i: int) -> Seq<Seq<char>>
    decreases c.environments.len() - i,
{
    if i < 0 || i >= c.environments.len() {
        Seq::empty()
    } else {
        seq![spec_env_header(c.environments[i].0, c.default_environment)] + spec_task_lines(
            c.environments[i].1.tasks,
            0,
        ) + spec_listing(c, i + 1)
    }
}

/// The lines the `list` subcommand prints: every environment's name (the
/// default one annotated), each followed by its task names, indented.
pub fn list_environments(config: &Configuration) -> (lines: Vec<String>)
    ensures
        lines.deep_view() == spec_listing(config.deep_view(), 0),
{
    let ghost cv = config.deep_view();
    let mut lines: Vec<String> = Vec::new();
    let mut i: usize = 0;
    proof {
        assert(lines.deep_view() + spec_listing(cv, 0) =~= spec_listing(cv, 0));
    }
    while i < config.environments.len()
        invariant
            i <= config.environments@.len(),
            cv == config.deep_view(),
            spec_listing(cv, 0) == lines.deep_view() + spec_listing(cv, i as int),
        decreases config.environments@.len() - i,
    {
        let pair = &config.environments[i];
        let mut header = pair.0.clone();
        let is_default = match &config.default_environment {
            Some(d) => *d == pair.0,
            None => false,
        };
        if is_default {
            header.append("  [default]");
        }
        let ghost before = lines.deep_view();
        lines.push(header);
        proof {
            assert(lines.deep_view() =~= before + seq![
                spec_env_header(cv.environments[i as int].0, cv.default_environment),
            ]);
        }
        let ghost tv = cv.environments[i as int].1.tasks;
        let tasks = &pair.1.tasks;
        let mut j: usize = 0;
        proof {
            assert(tv =~= tasks.deep_view());
        }
        while j < tasks.len()
            invariant
                j <= tasks@.len(),
                tv == tasks.deep_view(),
                spec_listing(cv, 0) == lines.deep_view() + spec_task_lines(tv, j as int)
                    + spec_listing(cv, i as int + 1),
            decreases tasks@.len() - j,
        {
            let mut line = String::from_str("  - ");
            line.append(tasks[j].0.as_str());
            let ghost before_line = lines.deep_view();
            lines.push(line);
            proof {
                assert(lines.deep_view() =~= before_line + seq!["  - "@ + tv[j as int].0]);
                assert((before_line + seq!["  - "@ + tv[j as int].0]) + (spec_task_lines(
                    tv,
                    j as int + 1,
                ) + spec_listing(cv, i as int + 1)) =~= (before_line + (seq!["  - "@
                    + tv[j as int].0] + spec_task_lines(tv, j as int + 1))) + spec_listing(
                    cv,
                    i as int + 1,
                ));
            }
            j = j + 1;
        }
        i = i + 1;
    }
    proof {
        assert(lines.deep_view() + Seq::<Seq<char>>::empty() =~= lines.deep_view());
    }
    lines
}

/// The command line joined from its words with single spaces: what the
/// `cmd` subcommand hands to the service from its trailing arguments.
pub open spec fn spec_join_from(words: Seq<Seq<char>>, i: int) -> Seq<char>
    decreases words.len() - i,
{
    if i < 0 || i >= words.len() {
        Seq::empty()
    } else if i == words.len() - 1 {
        words[i]
    } else {
        words[i] + " "@ + spec_join_from(words, i + 1)
    }
}

/// The words joined with single spaces.
pub open spec fn spec_join(words: Seq<Seq<char>>) -> Seq<char> {
    spec_join_from(words, 0)
}

/// Joins words with single spaces into one literal command line.
pub fn join_words(words: &Vec<String>) -> (r: String)
    ensures
        r@ == spec_join(words.deep_view()),
{
    let ghost wv = words.deep_view();
    let mut out = String::new();
    let mut i: usize = 0;
    while i < words.len()
        invariant
            i <= words@.len(),
            wv == words.deep_view(),
            spec_join(wv) == out@ + spec_join_from(wv, i as int),
        decreases words@.len() - i,
    {
        let ghost before = out@;
        out.append(words[i].as_str());
        if i + 1 < words.len() {
            out.append(" ");
            proof {
                assert((before + wv[i as int]) + " "@ =~= before + (wv[i as int] + " "@));
                assert((before + (wv[i as int] + " "@)) + spec_join_from(wv, i as int + 1)
                    =~= before + ((wv[i as int] + " "@) + spec_join_from(wv, i as int + 1)));
            }
        }
        i = i + 1;
    }
    out
}

} // verus!
