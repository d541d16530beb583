//! The environment store: the variables of the shell session, as byte strings.

use vstd::prelude::*;
use vstd::string::StringSliceAdditionalSpecFns;

use crate::ascii::{COLON, DOUBLE_QUOTE, EQUALS, NUL, SLASH};
use crate::bytes::{copy, copy_all, equal, extend, from_text, pieces, split, strings_view};
use crate::global_struct::default_utils::{builtin_named, DefaultUtils};

verus! {

/// The variables of a session as a mathematical value.
pub struct Variables {
    /// The names of the variables that are set, in the order in which they were
    /// first set.
    pub names: Seq<Seq<u8>>,
    /// The value of each variable that is set.
    pub values: Map<Seq<u8>, Seq<u8>>,
}

impl Variables {
    /// No variable is set.
    pub open spec fn empty() -> Variables {
        Variables { names: Seq::empty(), values: Map::empty() }
    }

    /// The value of a variable; the empty byte string if it is not set.
    pub open spec fn get(self, name: Seq<u8>) -> Seq<u8> {
        if self.values.dom().contains(name) {
            self.values[name]
        } else {
            Seq::empty()
        }
    }

    /// The variables once `name` is set to `value`: a new name comes last.
    pub open spec fn set(self, name: Seq<u8>, value: Seq<u8>) -> Variables {
        Variables {
            names: if self.values.dom().contains(name) {
                self.names
            } else {
                self.names.push(name)
            },
            values: self.values.insert(name, value),
        }
    }

    /// What a process is given: one `NAME=VALUE` for each variable, in the order of
    /// the names.
    pub open spec fn rendered(self) -> Seq<Seq<u8>> {
        Seq::new(self.names.len(), |i: int| entry(self.names[i], self.values[self.names[i]]))
    }

    /// The names are the variables that are set, each once.
    pub open spec fn well_formed(self) -> bool {
        &&& self.names.no_duplicates()
        &&& forall|name: Seq<u8>| self.names.contains(name) <==> self.values.dom().contains(name)
    }
}

/// The number of bytes of an assignment that stand before its first `=`; all of
/// them if it has none.
pub open spec fn name_length(assignment: Seq<u8>) -> nat
    decreases assignment.len(),
{
    if assignment.len() == 0 || assignment.first() == EQUALS {
        0
    } else {
        1 + name_length(assignment.drop_first())
    }
}

/// The name that an assignment sets: what stands before its first `=`.
pub open spec fn assignment_name(assignment: Seq<u8>) -> Seq<u8> {
    assignment.take(name_length(assignment) as int)
}

/// The value that an assignment gives: what stands after its first `=`, further `=`
/// included; nothing if it has no `=`.
pub open spec fn assignment_value(assignment: Seq<u8>) -> Seq<u8> {
    if name_length(assignment) < assignment.len() {
        assignment.skip(name_length(assignment) as int + 1)
    } else {
        Seq::empty()
    }
}

/// The variables after an assignment.
pub open spec fn assigned(variables: Variables, assignment: Seq<u8>) -> Variables {
    variables.set(assignment_name(assignment), assignment_value(assignment))
}

/// The variables after a sequence of assignments, carried out in order.
pub open spec fn assigned_all(variables: Variables, assignments: Seq<Seq<u8>>) -> Variables
    decreases assignments.len(),
{
    if assignments.len() == 0 {
        variables
    } else {
        assigned(assigned_all(variables, assignments.drop_last()), assignments.last())
    }
}

/// A variable as a process sees it: `NAME=VALUE`.
pub open spec fn entry(name: Seq<u8>, value: Seq<u8>) -> Seq<u8> {
    name + seq![EQUALS] + value
}

/// The name of the variable that holds the directories in which commands are
/// looked for, with `:` between each two.
pub open spec fn search_path_name() -> Seq<u8> {
    "PSEUDOBASH_PATH".spec_bytes()
}

/// The directories of a search path: what stands between its `:`, in order.
pub open spec fn directories(path: Seq<u8>) -> Seq<Seq<u8>> {
    pieces(path, COLON)
}

/// The place of a command in a directory.
pub open spec fn candidate(directory: Seq<u8>, name: Seq<u8>) -> Seq<u8> {
    directory + seq![SLASH] + name
}

/// The places at which a command is looked for, in order: the name as it is, then
/// the name in each directory of the search path.
pub open spec fn candidates(name: Seq<u8>, path: Seq<u8>) -> Seq<Seq<u8>> {
    seq![name] + Seq::new(
        directories(path).len(),
        |i: int| candidate(directories(path)[i], name),
    )
}

/// The first place at which a probe found an executable file; the number of probes
/// if none did.
pub open spec fn first_hit(probes: Seq<bool>) -> nat
    decreases probes.len(),
{
    if probes.len() == 0 || probes.first() {
        0
    } else {
        1 + first_hit(probes.drop_first())
    }
}

/// The path that a command name is resolved to.
///
/// `name` is a word closed by a NUL. A word that calls a builtin is resolved to
/// the pseudo-path of the builtin. Every other name is resolved to the first place,
/// among those at which it is looked for, at which a probe found an executable
/// file; `probes` holds the answers in the order of the places, and a place without
/// an answer counts as a miss.
pub open spec fn resolved(name: Seq<u8>, variables: Variables, probes: Seq<bool>) -> Option<
    Seq<u8>,
> {
    if name.len() > 0 && builtin_named(name.drop_last()) is Some {
        Some(builtin_named(name.drop_last())->Some_0.path().push(NUL))
    } else {
        let places = candidates(name, variables.get(search_path_name()));
        if first_hit(probes) < probes.len() && first_hit(probes) < places.len() {
            Some(places[first_hit(probes) as int])
        } else {
            None
        }
    }
}

/// The first `true` stands at `position` if no `true` stands before it.
pub proof fn lemma_first_hit(probes: Seq<bool>, position: int)
    requires
        0 <= position <= probes.len(),
        forall|i: int| 0 <= i < position ==> !probes[i],
        position < probes.len() ==> probes[position],
    ensures
        first_hit(probes) == position,
    decreases position,
{
    if position > 0 {
        let rest = probes.drop_first();
        lemma_first_hit(rest, position - 1);
    }
}

/// The first `true` does not stand before `position` if no `true` stands before it.
pub proof fn lemma_first_hit_later(probes: Seq<bool>, position: int)
    requires
        0 <= position <= probes.len(),
        forall|i: int| 0 <= i < position ==> !probes[i],
    ensures
        first_hit(probes) >= position,
    decreases position,
{
    if position > 0 {
        let rest = probes.drop_first();
        lemma_first_hit_later(rest, position - 1);
    }
}

/// A command that was found nowhere.
#[derive(Debug, PartialEq, Eq)]
pub struct NoSuchFile {
    /// The name of the command, closed by a NUL.
    pub name: Vec<u8>,
}

impl NoSuchFile {
    /// What is said of the error: the name, without the byte that closes it, in
    /// quotes.
    pub open spec fn text(self) -> Seq<u8> {
        "No such file or directory: ".spec_bytes() + seq![DOUBLE_QUOTE] + (if self.name@.len()
            > 0 {
            self.name@.drop_last()
        } else {
            self.name@
        }) + seq![DOUBLE_QUOTE]
    }

    /// What is said of the error.
    pub fn message(&self) -> (message: Vec<u8>)
        ensures
            message@ == self.text(),
    {
        let mut message = from_text("No such file or directory: ");
        message.push(DOUBLE_QUOTE);
        let length = if self.name.len() > 0 {
            self.name.len() - 1
        } else {
            0
        };
        extend(&mut message, &self.name, 0, length);
        message.push(DOUBLE_QUOTE);
        message
    }
}

/// The position of the first `=` is the length of the name.
pub proof fn lemma_name_length(assignment: Seq<u8>, position: int)
    requires
        0 <= position <= assignment.len(),
        forall|i: int| 0 <= i < position ==> assignment[i] != EQUALS,
        position < assignment.len() ==> assignment[position] == EQUALS,
    ensures
        name_length(assignment) == position,
    decreases position,
{
    if position > 0 {
        let rest = assignment.drop_first();
        lemma_name_length(rest, position - 1);
    }
}

/// The environment store.
pub struct Environment {
    vars: Vec<(Vec<u8>, Vec<u8>)>,
    lin: Option<Vec<Vec<u8>>>,
}

impl View for Environment {
    type V = Variables;

    closed spec fn view(&self) -> Variables {
        Variables {
            names: Seq::new(self.vars.len() as nat, |i: int| self.vars[i].0@),
            values: Map::new(
                |name: Seq<u8>| self.has(name),
                |name: Seq<u8>| self.vars[self.position(name)].1@,
            ),
        }
    }
}

impl Environment {
    spec fn has(&self, name: Seq<u8>) -> bool {
        exists|i: int| 0 <= i < self.vars.len() && self.vars[i].0@ == name
    }

    spec fn position(&self, name: Seq<u8>) -> int {
        choose|i: int| 0 <= i < self.vars.len() && self.vars[i].0@ == name
    }

    spec fn lines(&self) -> Seq<Seq<u8>> {
        Seq::new(self.vars.len() as nat, |i: int| entry(self.vars[i].0@, self.vars[i].1@))
    }

    #[verifier::type_invariant]
    spec fn well_formed(&self) -> bool {
        &&& forall|i: int, j: int|
            0 <= i < j < self.vars.len() ==> self.vars[i].0@ != self.vars[j].0@
        &&& self.lin matches Some(lin) ==> strings_view(lin@) == self.lines()
    }

    /// An environment without variables.
    pub fn new() -> (environment: Environment)
        ensures
            environment@ == Variables::empty(),
    {
        let environment = Environment { vars: Vec::new(), lin: None };
        assert(environment@.values =~= Map::empty());
        assert(environment@.names =~= Seq::empty());
        environment
    }

    /// Where a name stands among the variables, if it is set.
    fn find(&self, name: &Vec<u8>) -> (found: Option<usize>)
        ensures
            match found {
                Some(index) => index < self.vars.len() && self.vars[index as int].0@ == name@,
                None => !self.has(name@),
            },
    {
        let mut index: usize = 0;
        while index < self.vars.len()
            invariant
                index <= self.vars.len(),
                forall|i: int| 0 <= i < index ==> self.vars[i].0@ != name@,
            decreases self.vars.len() - index,
        {
            if equal(&self.vars[index].0, name) {
                return Some(index);
            }
            index += 1;
        }
        None
    }

    /// Puts the value of the variable that `name` names in its place: the empty
    /// byte string if the variable is not set.
    pub fn get_var(&self, name: &mut Vec<u8>)
        ensures
            final(name)@ == self@.get(old(name)@),
    {
        proof {
            use_type_invariant(self);
        }
        match self.find(name) {
            Some(index) => {
                *name = copy(&self.vars[index].1);
            },
            None => {
                name.clear();
            },
        }
    }

    /// Sets a variable.
    pub fn set_var(&mut self, name: Vec<u8>, value: Vec<u8>)
        ensures
            final(self)@ == old(self)@.set(name@, value@),
    {
        proof {
            use_type_invariant(&*self);
        }
        let ghost before = *self;
        let found = self.find(&name);
        self.lin = None;
        let mut vars: Vec<(Vec<u8>, Vec<u8>)> = Vec::new();
        std::mem::swap(&mut self.vars, &mut vars);
        match found {
            Some(index) => {
                vars.set(index, (name, value));
            },
            None => {
                vars.push((name, value));
            },
        }
        self.vars = vars;
        proof {
            if before.has(name@) {
                assert(self@.names =~= before@.names);
                assert forall|other: Seq<u8>| self.has(other) == before.has(other) by {
                    if before.has(other) {
                        let i = before.position(other);
                        assert(self.vars[i].0@ == other);
                    }
                    if self.has(other) {
                        let i = self.position(other);
                    }
                }
            } else {
                assert(self@.names =~= before@.names.push(name@));
                assert(self.vars[before.vars.len() as int].0@ == name@);
                assert forall|other: Seq<u8>|
                    self.has(other) == (before.has(other) || other == name@) by {
                    if before.has(other) {
                        let i = before.position(other);
                        assert(self.vars[i].0@ == other);
                    }
                    if self.has(other) && other != name@ {
                        let i = self.position(other);
                    }
                }
                assert forall|other: Seq<u8>| before.has(other) implies self.vars[self.position(
                    other,
                )].1@ == before.vars[before.position(other)].1@ by {
                    let i = before.position(other);
                }
            }
            assert(self@.values =~= before@.values.insert(name@, value@));
        }
    }

    /// The places at which a command is looked for, in order.
    ///
    /// `name` is the command, closed by a NUL. The caller probes each place for an
    /// executable file and hands the answers to `get_full_path`.
    pub fn search_candidates(&self, name: &Vec<u8>) -> (places: Vec<Vec<u8>>)
        ensures
            strings_view(places@) == candidates(name@, self@.get(search_path_name())),
    {
        let mut path = from_text("PSEUDOBASH_PATH");
        self.get_var(&mut path);
        let directories = split(&path, COLON);
        let mut places: Vec<Vec<u8>> = Vec::new();
        places.push(copy(name));
        let mut index: usize = 0;
        while index < directories.len()
            invariant
                index <= directories.len(),
                places.len() == 1 + index,
                places@[0]@ == name@,
                forall|i: int|
                    0 <= i < index ==> (#[trigger] places@[i + 1])@ == candidate(
                        directories@[i]@,
                        name@,
                    ),
            decreases directories.len() - index,
        {
            let mut place = copy(&directories[index]);
            place.push(SLASH);
            extend(&mut place, name, 0, name.len());
            places.push(place);
            index += 1;
        }
        proof {
            let expected = candidates(name@, path@);
            assert forall|i: int| 0 <= i < expected.len() implies strings_view(places@)[i]
                == expected[i] by {
                if i > 0 {
                    assert(places@[(i - 1) + 1]@ == candidate(directories@[i - 1]@, name@));
                }
            }
        }
        places
    }

    /// Resolves a command name to the path that is run.
    ///
    /// `name` is the command, closed by a NUL; `probes` says of each place of
    /// `search_candidates`, in order, whether an executable file stands there. A
    /// name that is resolved gives way to its path; a name that is found nowhere
    /// stays, and is handed back in the error.
    pub fn get_full_path(
        &self,
        name: &mut Vec<u8>,
        default_utils: &DefaultUtils,
        probes: &Vec<bool>,
    ) -> (result: Result<(), NoSuchFile>)
        ensures
            match resolved(old(name)@, self@, probes@) {
                Some(path) => result is Ok && final(name)@ == path,
                None => {
                    &&& result matches Err(error) && error.name@ == old(name)@
                    &&& final(name)@ == old(name)@
                },
            },
    {
        if default_utils.name_into_path(name) {
            return Ok(());
        }
        let mut places = self.search_candidates(name);
        let mut index: usize = 0;
        while index < probes.len() && index < places.len() && !probes[index]
            invariant
                index <= probes.len(),
                index <= places.len(),
                forall|i: int| 0 <= i < index ==> !probes@[i],
            decreases probes.len() - index,
        {
            index += 1;
        }
        if index < probes.len() && index < places.len() {
            proof {
                lemma_first_hit(probes@, index as int);
            }
            let mut place: Vec<u8> = Vec::new();
            places.set_and_swap(index, &mut place);
            *name = place;
            Ok(())
        } else {
            proof {
                lemma_first_hit_later(probes@, index as int);
                if index == probes.len() {
                    lemma_first_hit(probes@, index as int);
                }
            }
            Err(NoSuchFile { name: copy(name) })
        }
    }

    /// Carries out an assignment `NAME=VALUE`: it is split at its first `=`.
    pub fn assign(&mut self, assignment: Vec<u8>)
        ensures
            final(self)@ == assigned(old(self)@, assignment@),
    {
        let mut position: usize = 0;
        while position < assignment.len() && assignment[position] != EQUALS
            invariant
                position <= assignment.len(),
                forall|i: int| 0 <= i < position ==> assignment@[i] != EQUALS,
            decreases assignment.len() - position,
        {
            position += 1;
        }
        proof {
            lemma_name_length(assignment@, position as int);
        }
        let mut name: Vec<u8> = Vec::new();
        extend(&mut name, &assignment, 0, position);
        let mut value: Vec<u8> = Vec::new();
        if position < assignment.len() {
            extend(&mut value, &assignment, position + 1, assignment.len());
        }
        self.set_var(name, value);
    }

    /// Carries out assignments in order, as the lines of a file of variables are.
    pub fn assign_all(&mut self, assignments: Vec<Vec<u8>>)
        ensures
            final(self)@ == assigned_all(old(self)@, strings_view(assignments@)),
    {
        let ghost all = strings_view(assignments@);
        let ghost before = self@;
        for assignment in it: assignments
            invariant
                all == strings_view(it.seq()),
                self@ == assigned_all(before, all.take(it.index() as int)),
        {
            proof {
                let k = it.index() as int;
                assert(all.take(k + 1).drop_last() =~= all.take(k));
            }
            self.assign(assignment);
        }
        assert(all.take(all.len() as int) =~= all);
    }

    /// What a process is given: one `NAME=VALUE` for each variable. The list is kept
    /// until a variable is set.
    pub fn get_env(&mut self) -> (env: Vec<Vec<u8>>)
        ensures
            strings_view(env@) == old(self)@.rendered(),
            old(self)@.well_formed(),
            final(self)@ == old(self)@,
    {
        proof {
            use_type_invariant(&*self);
            self.lemma_lines();
            self.lemma_names();
        }
        match &self.lin {
            Some(lin) => copy_all(lin),
            None => {
                let lin = self.render();
                let env = copy_all(&lin);
                let ghost before = *self;
                self.lin = Some(lin);
                proof {
                    assert(self@.values =~= before@.values);
                }
                env
            },
        }
    }

    proof fn lemma_names(&self)
        requires
            forall|i: int, j: int|
                0 <= i < j < self.vars.len() ==> self.vars[i].0@ != self.vars[j].0@,
        ensures
            self@.well_formed(),
    {
        assert forall|name: Seq<u8>| self@.names.contains(name) implies self@.values.dom().contains(
            name,
        ) by {
            let i = choose|i: int| 0 <= i < self@.names.len() && self@.names[i] == name;
        }
        assert forall|name: Seq<u8>| self@.values.dom().contains(name) implies self@.names.contains(
            name,
        ) by {
            let i = self.position(name);
            assert(self@.names[i] == name);
        }
    }

    proof fn lemma_lines(&self)
        requires
            forall|i: int, j: int|
                0 <= i < j < self.vars.len() ==> self.vars[i].0@ != self.vars[j].0@,
        ensures
            self.lines() == self@.rendered(),
    {
        assert forall|i: int| 0 <= i < self.vars.len() implies self.lines()[i]
            == self@.rendered()[i] by {
            assert(self.has(self.vars[i].0@));
        }
    }

    /// Writes every variable out as `NAME=VALUE`.
    fn render(&self) -> (lines: Vec<Vec<u8>>)
        ensures
            strings_view(lines@) == self.lines(),
    {
        let mut lines: Vec<Vec<u8>> = Vec::new();
        let mut index: usize = 0;
        while index < self.vars.len()
            invariant
                index <= self.vars.len(),
                lines.len() == index,
                forall|i: int| 0 <= i < index ==> lines@[i]@ == self.lines()[i],
            decreases self.vars.len() - index,
        {
            let mut line = copy(&self.vars[index].0);
            line.push(EQUALS);
            extend(&mut line, &self.vars[index].1, 0, self.vars[index].1.len());
            lines.push(line);
            index += 1;
        }
        lines
    }
}

impl Default for Environment {
    fn default() -> (environment: Self)
        ensures
            environment@ == Variables::empty(),
    {
        Environment::new()
    }
}

} // verus!
