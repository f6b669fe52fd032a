//! Tools that a model may call.

use vstd::prelude::*;

verus! {

/// What the model is told of a tool.
#[derive(Debug, PartialEq)]
pub struct ToolDefinition {
    pub name: String,
    pub description: String,
    pub parameters_schema: serde_json::Value,
}

impl Clone for ToolDefinition {
    fn clone(&self) -> (result: Self)
        ensures
            result == *self,
    {
        ToolDefinition {
            name: self.name.clone(),
            description: self.description.clone(),
            parameters_schema: self.parameters_schema.clone(),
        }
    }
}

/// The model of a [`ToolDefinition`].
pub struct ToolDefinitionView {
    pub name: Seq<char>,
    pub description: Seq<char>,
    pub parameters_schema: serde_json::Value,
}

impl View for ToolDefinition {
    type V = ToolDefinitionView;

    open spec fn view(&self) -> ToolDefinitionView {
        ToolDefinitionView {
            name: self.name@,
            description: self.description@,
            parameters_schema: self.parameters_schema,
        }
    }
}

/// The models of a list of tool definitions.
pub open spec fn definition_views(tools: Seq<ToolDefinition>) -> Seq<ToolDefinitionView> {
    tools.map_values(|tool: ToolDefinition| tool@)
}

/// Copies a list of tool definitions.
pub fn copy_definitions(tools: &Vec<ToolDefinition>) -> (result: Vec<ToolDefinition>)
    ensures
        result@ == tools@,
{
    let mut result: Vec<ToolDefinition> = Vec::new();
    for i in 0..tools.len()
        invariant
            result@ == tools@.take(i as int),
    {
        result.push(tools[i].clone());
        assert(tools@.take(i + 1) == tools@.take(i as int).push(tools@[i as int]));
    }
    assert(tools@.take(tools@.len() as int) == tools@);
    result
}

/// The place of the first tool in the list that bears `name`, if there is one.
pub open spec fn first_named(names: Seq<Seq<char>>, name: Seq<char>) -> Option<int>
    decreases names.len(),
{
    if names.len() == 0 {
        None
    } else if names[0] == name {
        Some(0)
    } else {
        match first_named(names.drop_first(), name) {
            Some(place) => Some(place + 1),
            None => None,
        }
    }
}

/// The texts of a list of strings.
pub open spec fn texts(strings: Seq<String>) -> Seq<Seq<char>> {
    strings.map_values(|string: String| string@)
}

/// Looks a tool up by its name: the first of that name counts.
pub fn find_tool(names: &Vec<String>, name: &String) -> (place: Option<usize>)
    ensures
        match place {
            Some(i) => i < names@.len() && first_named(texts(names@), name@) == Some(i as int),
            None => first_named(texts(names@), name@) is None,
        },
{
    let ghost all = texts(names@);
    assert(all.skip(0) == all);
    for i in 0..names.len()
        invariant
            all == texts(names@),
            first_named(all, name@) == match first_named(all.skip(i as int), name@) {
                Some(place) => Some(place + i),
                None => None,
            },
    {
        assert(all.skip(i as int).drop_first() == all.skip(i + 1));
        assert(all.skip(i as int)[0] == names@[i as int]@);
        if names[i] == *name {
            return Some(i);
        }
    }
    None
}

/// A tool is found exactly where there is one of that name, and it is the first of them.
pub proof fn law_first_tool_of_a_name_is_found(names: Seq<Seq<char>>, name: Seq<char>)
    ensures
        match first_named(names, name) {
            Some(i) => 0 <= i < names.len() && names[i] == name && forall|j: int|
                0 <= j < i ==> names[j] != name,
            None => !names.contains(name),
        },
    decreases names.len(),
{
    if names.len() > 0 && names[0] != name {
        let rest = names.drop_first();
        law_first_tool_of_a_name_is_found(rest, name);
        match first_named(rest, name) {
            Some(i) => {
                assert forall|j: int| 0 <= j < i + 1 implies names[j] != name by {
                    if j > 0 {
                        assert(rest[j - 1] == names[j]);
                    }
                }
            },
            None => {
                if names.contains(name) {
                    let j = choose|j: int| 0 <= j < names.len() && names[j] == name;
                    assert(rest[j - 1] == name);
                }
            },
        }
    }
}

} // verus!
