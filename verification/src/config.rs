//! The configuration, as far as installing reads and changes it: the tools
//! by name, and where each is installed.

use vstd::prelude::*;
use vstd::string::StringExecFns;
use crate::github::GithubConfig;
use crate::text::is_before;
use crate::text::lemma_text_order_is_total;
use crate::text::lemma_text_order_is_transitive;
use crate::text::str_eq;
use crate::text::text_before;
use crate::text::to_chars;
use crate::tool::ToolSpec;

verus! {

/// A tool of the configuration, under its name.
#[derive(Debug, PartialEq, Eq)]
pub struct NamedTool {
    pub name: String,
    pub spec: ToolSpec,
}

/// The configuration.
#[derive(Debug)]
pub struct Config {
    /// The directory that tools are installed to.
    pub path: String,
    /// The tools, in the order in which they are worked on: that of their
    /// names, none of which occurs twice. A configuration that is read from
    /// a file is in this order, and `update_tool` and `remove_tool` keep it.
    pub tools: Vec<NamedTool>,
    pub github: GithubConfig,
}

/// Whether the tools stand in the order of their names. No name then occurs
/// twice.
pub open spec fn in_name_order(tools: Seq<NamedTool>) -> bool {
    forall|i: int, j: int|
        #![trigger tools[i], tools[j]]
        0 <= i < j < tools.len() ==> text_before(tools[i].name@, tools[j].name@)
}

/// Whether no name is that of two tools.
pub open spec fn no_name_twice(tools: Seq<NamedTool>) -> bool {
    forall|i: int, j: int|
        #![trigger tools[i], tools[j]]
        0 <= i < j < tools.len() ==> tools[i].name@ != tools[j].name@
}

/// Tools that stand in the order of their names have a name each.
pub proof fn lemma_order_has_no_name_twice(tools: Seq<NamedTool>)
    requires
        in_name_order(tools),
    ensures
        no_name_twice(tools),
{
    assert forall|i: int, j: int|
        #![trigger tools[i], tools[j]]
        0 <= i < j < tools.len() implies tools[i].name@ != tools[j].name@ by {
        lemma_text_order_is_total(tools[i].name@, tools[i].name@);
    }
}

/// What `std::path::Path::join` makes of a directory and a name, on a
/// system whose separator is `/`.
pub uninterp spec fn path_joined(directory: Seq<char>, name: Seq<char>) -> Seq<char>;

/// Calls `Path::join`. Two paths that are text join to a path that is text.
#[verifier::external_body]
fn join_path(directory: &str, name: &str) -> (r: String)
    ensures
        r@ == path_joined(directory@, name@),
{
    std::path::Path::new(directory).join(name).to_string_lossy().into_owned()
}

/// Why a change of the configuration was refused.
#[derive(Clone, Copy, Debug, PartialEq, Eq, Structural)]
pub enum ConfigError {
    /// The tool to remove is not configured.
    NoSuchTool,
}

impl ConfigError {
    /// The error as a message for the user.
    pub fn message(&self) -> (r: String)
        ensures
            r@ == "Unable to find the tool in the configuration file"@,
    {
        String::from_str("Unable to find the tool in the configuration file")
    }
}

/// The position of the first tool named `name` at or after `from`, or the
/// number of tools.
pub open spec fn position_of(tools: Seq<NamedTool>, name: Seq<char>, from: int) -> int
    decreases tools.len() - from,
{
    if from >= tools.len() {
        tools.len() as int
    } else if from >= 0 && tools[from].name@ == name {
        from
    } else {
        position_of(tools, name, from + 1)
    }
}

/// The position at or after `from` of the first tool whose name comes after
/// `name`, or the number of tools: where a tool of that name is put.
pub open spec fn place_of(tools: Seq<NamedTool>, name: Seq<char>, from: int) -> int
    decreases tools.len() - from,
{
    if from >= tools.len() {
        tools.len() as int
    } else if from >= 0 && text_before(name, tools[from].name@) {
        from
    } else {
        place_of(tools, name, from + 1)
    }
}

proof fn lemma_position_of(tools: Seq<NamedTool>, name: Seq<char>, from: int)
    requires
        0 <= from <= tools.len(),
    ensures
        from <= position_of(tools, name, from) <= tools.len(),
        position_of(tools, name, from) < tools.len() ==> tools[position_of(
            tools,
            name,
            from,
        )].name@ == name,
        forall|k: int| from <= k < position_of(tools, name, from) ==> (#[trigger] tools[k]).name@
            != name,
    decreases tools.len() - from,
{
    if from < tools.len() && tools[from].name@ != name {
        lemma_position_of(tools, name, from + 1);
    }
}

proof fn lemma_place_of(tools: Seq<NamedTool>, name: Seq<char>, from: int)
    requires
        0 <= from <= tools.len(),
    ensures
        from <= place_of(tools, name, from) <= tools.len(),
        place_of(tools, name, from) < tools.len() ==> text_before(
            name,
            tools[place_of(tools, name, from)].name@,
        ),
        forall|k: int|
            from <= k < place_of(tools, name, from) ==> !text_before(
                name,
                (#[trigger] tools[k]).name@,
            ),
    decreases tools.len() - from,
{
    if from < tools.len() && !text_before(name, tools[from].name@) {
        lemma_place_of(tools, name, from + 1);
    }
}

/// A tool with a new name, put where its name belongs, leaves the tools in
/// the order of their names.
proof fn lemma_insert_keeps_order(tools: Seq<NamedTool>, tool: NamedTool)
    requires
        in_name_order(tools),
        position_of(tools, tool.name@, 0) == tools.len(),
    ensures
        in_name_order(tools.insert(place_of(tools, tool.name@, 0), tool)),
{
    let name = tool.name@;
    let at = place_of(tools, name, 0);
    let grown = tools.insert(at, tool);
    lemma_position_of(tools, name, 0);
    lemma_place_of(tools, name, 0);
    assert forall|i: int, j: int|
        #![trigger grown[i], grown[j]]
        0 <= i < j < grown.len() implies text_before(grown[i].name@, grown[j].name@) by {
        if j == at {
            assert(grown[i] == tools[i]);
            assert(!text_before(name, tools[i].name@));
            lemma_text_order_is_total(tools[i].name@, name);
        } else if i == at {
            assert(grown[j] == tools[j - 1]);
            assert(text_before(name, tools[at].name@));
            if j - 1 > at {
                assert(text_before(tools[at].name@, tools[j - 1].name@));
                lemma_text_order_is_transitive(name, tools[at].name@, tools[j - 1].name@);
            }
        } else {
            let before = if i < at {
                i
            } else {
                i - 1
            };
            let after = if j < at {
                j
            } else {
                j - 1
            };
            assert(grown[i] == tools[before]);
            assert(grown[j] == tools[after]);
            assert(text_before(tools[before].name@, tools[after].name@));
        }
    }
}

impl Config {
    /// Whether the tools stand in the order of their names, each name once,
    /// as in a configuration that was read from a file.
    pub open spec fn wf(&self) -> bool {
        in_name_order(self.tools@)
    }

    /// Where the tool `name` is installed: under its name in the tool's own
    /// directory, if it has one, else in the common one.
    pub fn get_tool_path(&self, name: &str, spec: &ToolSpec) -> (r: String)
        ensures
            r@ == path_joined(
                match spec.path {
                    Some(directory) => directory@,
                    None => self.path@,
                },
                name@,
            ),
    {
        match &spec.path {
            Some(directory) => join_path(directory.as_str(), name),
            None => join_path(self.path.as_str(), name),
        }
    }

    /// The position of the tool `name`, if it is configured.
    pub fn find(&self, name: &str) -> (r: Option<usize>)
        ensures
            match r {
                Some(i) => i < self.tools.len() && i == position_of(self.tools@, name@, 0),
                None => position_of(self.tools@, name@, 0) == self.tools.len(),
            },
    {
        let mut i: usize = 0;
        while i < self.tools.len()
            invariant
                i <= self.tools.len(),
                position_of(self.tools@, name@, 0) == position_of(self.tools@, name@, i as int),
            decreases self.tools.len() - i,
        {
            if str_eq(self.tools[i].name.as_str(), name) {
                return Some(i);
            }
            i += 1;
        }
        None
    }

    /// The position at which a tool named `name` is put.
    fn place(&self, name: &str) -> (r: usize)
        ensures
            r == place_of(self.tools@, name@, 0),
            r <= self.tools.len(),
    {
        let chars = to_chars(name);
        let mut i: usize = 0;
        while i < self.tools.len()
            invariant
                i <= self.tools.len(),
                chars@ == name@,
                place_of(self.tools@, name@, 0) == place_of(self.tools@, name@, i as int),
            decreases self.tools.len() - i,
        {
            if is_before(&chars, &to_chars(self.tools[i].name.as_str())) {
                return i;
            }
            i += 1;
        }
        i
    }

    /// The names of the tools, in order.
    pub fn names(&self) -> (r: Vec<String>)
        ensures
            r.len() == self.tools.len(),
            forall|i: int| 0 <= i < r.len() ==> (#[trigger] r@[i])@ == self.tools@[i].name@,
    {
        let mut names: Vec<String> = Vec::new();
        let mut i: usize = 0;
        while i < self.tools.len()
            invariant
                i <= self.tools.len(),
                names.len() == i,
                forall|k: int| 0 <= k < i ==> (#[trigger] names@[k])@ == self.tools@[k].name@,
            decreases self.tools.len() - i,
        {
            names.push(self.tools[i].name.clone());
            i += 1;
        }
        names
    }

    /// Configures the tool `name` as `spec`: in the place of its present
    /// configuration, if it has one, else where its name belongs among the
    /// names of the others. Tools that stood in the order of their names
    /// still do, and no name comes to occur twice.
    pub fn update_tool(&mut self, name: &str, spec: ToolSpec)
        ensures
            final(self).path == old(self).path,
            final(self).github == old(self).github,
            ({
                let at = position_of(old(self).tools@, name@, 0);
                let place = place_of(old(self).tools@, name@, 0);
                if at < old(self).tools.len() {
                    final(self).tools@ == old(self).tools@.update(
                        at,
                        NamedTool { name: old(self).tools@[at].name, spec },
                    )
                } else {
                    &&& final(self).tools@.len() == old(self).tools.len() + 1
                    &&& final(self).tools@[place].name@ == name@
                    &&& final(self).tools@[place].spec == spec
                    &&& final(self).tools@.remove(place) == old(self).tools@
                }
            }),
            old(self).wf() ==> final(self).wf(),
            no_name_twice(old(self).tools@) ==> no_name_twice(final(self).tools@),
    {
        let ghost before = self.tools@;
        proof {
            lemma_position_of(before, name@, 0);
            lemma_place_of(before, name@, 0);
        }
        match self.find(name) {
            Some(i) => {
                self.tools[i].spec = spec;
                proof {
                    let after = self.tools@;
                    assert forall|k: int| 0 <= k < after.len() implies (#[trigger] after[k]).name@
                        == before[k].name@ by {}
                    if in_name_order(before) {
                        assert forall|a: int, b: int|
                            #![trigger after[a], after[b]]
                            0 <= a < b < after.len() implies text_before(
                            after[a].name@,
                            after[b].name@,
                        ) by {
                            assert(text_before(before[a].name@, before[b].name@));
                        }
                    }
                    if no_name_twice(before) {
                        assert forall|a: int, b: int|
                            #![trigger after[a], after[b]]
                            0 <= a < b < after.len() implies after[a].name@ != after[b].name@ by {
                            assert(before[a].name@ != before[b].name@);
                        }
                    }
                }
            },
            None => {
                let place: usize = self.place(name);
                let tool = NamedTool { name: String::from_str(name), spec };
                proof {
                    if in_name_order(before) {
                        lemma_insert_keeps_order(before, tool);
                    }
                    let after = before.insert(place as int, tool);
                    assert(after.remove(place as int) =~= before);
                    if no_name_twice(before) {
                        assert forall|a: int, b: int|
                            #![trigger after[a], after[b]]
                            0 <= a < b < after.len() implies after[a].name@ != after[b].name@ by {
                            let from = if a < place {
                                a
                            } else {
                                a - 1
                            };
                            let to = if b < place {
                                b
                            } else {
                                b - 1
                            };
                            if a != place && b != place {
                                assert(after[a] == before[from]);
                                assert(after[b] == before[to]);
                                assert(before[from].name@ != before[to].name@);
                            } else if a == place {
                                assert(after[b] == before[to]);
                            } else {
                                assert(after[a] == before[from]);
                            }
                        }
                    }
                }
                self.tools.insert(place, tool);
            },
        }
    }

    /// Removes the tool `name` from the configuration. The tools that stay
    /// keep their order.
    pub fn remove_tool(&mut self, name: &str) -> (r: Result<(), ConfigError>)
        ensures
            final(self).path == old(self).path,
            final(self).github == old(self).github,
            ({
                let at = position_of(old(self).tools@, name@, 0);
                if at < old(self).tools.len() {
                    r is Ok && final(self).tools@ == old(self).tools@.remove(at)
                } else {
                    r == Err::<(), ConfigError>(ConfigError::NoSuchTool) && final(self).tools@
                        == old(self).tools@
                }
            }),
            old(self).wf() ==> final(self).wf(),
            no_name_twice(old(self).tools@) ==> no_name_twice(final(self).tools@),
    {
        let ghost before = self.tools@;
        match self.find(name) {
            Some(i) => {
                self.tools.remove(i);
                proof {
                    let after = self.tools@;
                    assert forall|a: int, b: int|
                        #![trigger after[a], after[b]]
                        0 <= a < b < after.len() implies (in_name_order(before) ==> text_before(
                        after[a].name@,
                        after[b].name@,
                    )) && (no_name_twice(before) ==> after[a].name@ != after[b].name@) by {
                        let from = if a < i {
                            a
                        } else {
                            a + 1
                        };
                        let to = if b < i {
                            b
                        } else {
                            b + 1
                        };
                        assert(after[a] == before[from]);
                        assert(after[b] == before[to]);
                        if in_name_order(before) {
                            assert(text_before(before[from].name@, before[to].name@));
                        }
                        if no_name_twice(before) {
                            assert(before[from].name@ != before[to].name@);
                        }
                    }
                }
                Ok(())
            },
            None => Err(ConfigError::NoSuchTool),
        }
    }
}

} // verus!
