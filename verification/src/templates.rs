//! Document templates and their `{{variable}}` placeholders.

use vstd::prelude::*;
use crate::clock::{Timestamp, now, new_id, is_uuid_v4_text};
use crate::patterns::{compile_regex, regex_compile_error, regex_group1_captures, regex_group1_texts};

verus! {

/// A template that documents can be created from.
#[derive(Debug, Clone, PartialEq, Eq)]
pub struct Template {
    pub id: String,
    pub name: String,
    pub description: Option<String>,
    pub category: String,
    pub content: String,
    pub thumbnail: Option<String>,
    pub is_system: bool,
    pub created_by: Option<String>,
    pub created_at: Timestamp,
    pub updated_at: Timestamp,
    pub usage_count: u32,
}

/// A category of templates.
#[derive(Debug, Clone, PartialEq, Eq)]
pub struct TemplateCategory {
    pub id: String,
    pub name: String,
    pub description: Option<String>,
    pub icon: Option<String>,
    pub sort_order: i32,
}

/// A variable that a template's content uses.
#[derive(Debug, Clone, PartialEq, Eq)]
pub struct TemplateVariable {
    pub name: String,
    /// `text`, `date`, `number` or `choice`.
    pub field_type: String,
    pub required: bool,
    pub default_value: Option<String>,
    /// The options of a `choice` variable.
    pub options: Option<Vec<String>>,
    pub description: Option<String>,
}

/// The pattern of a variable placeholder: `{{`, one or more word characters
/// (captured), `}}`.
pub open spec fn variable_pattern() -> Seq<char> {
    "\\{\\{(\\w+)\\}\\}"@
}

/// The names among the captures, each kept once, at its first occurrence.
pub open spec fn distinct_names(caps: Seq<Option<Seq<char>>>) -> Seq<Seq<char>>
    decreases caps.len(),
{
    if caps.len() == 0 {
        seq![]
    } else {
        let prev = distinct_names(caps.drop_last());
        match caps.last() {
            Some(n) => if prev.contains(n) {
                prev
            } else {
                prev.push(n)
            },
            None => prev,
        }
    }
}

/// A variable found in content: required text with no default, options or description.
pub open spec fn found_variable(v: TemplateVariable, name: Seq<char>) -> bool {
    &&& v.name@ == name
    &&& v.field_type@ == "text"@
    &&& v.required
    &&& v.default_value is None
    &&& v.options is None
    &&& v.description is None
}

/// Whether a name is among the names of the variables.
fn has_variable(vars: &Vec<TemplateVariable>, name: &String) -> (r: bool)
    ensures
        r == vars@.map_values(|v: TemplateVariable| v.name@).contains(name@),
{
    let ghost names = vars@.map_values(|v: TemplateVariable| v.name@);
    let mut i: usize = 0;
    while i < vars.len()
        invariant
            names == vars@.map_values(|v: TemplateVariable| v.name@),
            i <= vars@.len(),
            forall|k: int| 0 <= k < i ==> names[k] != name@,
        decreases vars.len() - i,
    {
        if vars[i].name == *name {
            assert(names[i as int] == name@);
            return true;
        }
        i = i + 1;
    }
    assert forall|k: int| 0 <= k < names.len() implies names[k] != name@ by {}
    false
}

/// The variables that `content` uses, in order of first use: one per
/// distinct name of a `{{name}}` placeholder, each a required text variable.
/// The placeholder pattern always compiles; were it refused, no variables
/// would be found.
pub fn extract_variables(content: &str) -> (vars: Vec<TemplateVariable>)
    ensures
        regex_compile_error(variable_pattern()) is None ==> {
            let names = distinct_names(regex_group1_texts(variable_pattern(), content@));
            &&& vars@.len() == names.len()
            &&& forall|i: int| 0 <= i < names.len() ==> found_variable(#[trigger] vars@[i], names[i])
        },
        regex_compile_error(variable_pattern()) is Some ==> vars@.len() == 0,
{
    let mut vars: Vec<TemplateVariable> = Vec::new();
    let re = match compile_regex("\\{\\{(\\w+)\\}\\}") {
        Ok(re) => re,
        Err(_) => {
            return vars;
        },
    };
    let caps = regex_group1_captures(&re, content);
    let ghost texts = regex_group1_texts(variable_pattern(), content@);
    assert(texts.len() == caps@.len());
    let mut i: usize = 0;
    while i < caps.len()
        invariant
            texts == caps@.map_values(|o: Option<String>| crate::patterns::option_text(o)),
            i <= caps@.len(),
            vars@.map_values(|v: TemplateVariable| v.name@) == distinct_names(texts.take(i as int)),
            forall|k: int| 0 <= k < vars@.len() ==> found_variable(#[trigger] vars@[k], vars@[k].name@),
        decreases caps.len() - i,
    {
        assert(texts.take(i + 1).drop_last() =~= texts.take(i as int));
        assert(texts.take(i + 1).last() == texts[i as int]);
        match &caps[i] {
            Some(name) => {
                if !has_variable(&vars, name) {
                    let ghost before = vars@;
                    vars.push(TemplateVariable {
                        name: name.clone(),
                        field_type: "text".to_string(),
                        required: true,
                        default_value: None,
                        options: None,
                        description: None,
                    });
                    assert(vars@.map_values(|v: TemplateVariable| v.name@) =~= before.map_values(
                        |v: TemplateVariable| v.name@,
                    ).push(name@));
                }
            },
            None => {},
        }
        i = i + 1;
    }
    assert(texts.take(i as int) =~= texts);
    proof {
        let names = distinct_names(texts);
        assert forall|k: int| 0 <= k < names.len() implies found_variable(#[trigger] vars@[k], names[k]) by {
            assert(vars@.map_values(|v: TemplateVariable| v.name@)[k] == vars@[k].name@);
        }
    }
    vars
}

impl Template {
    /// A new user template: a fresh identifier, not a system template, no
    /// thumbnail, both timestamps the same current time, never used.
    pub fn new_user_template(
        name: &str,
        category: &str,
        content: &str,
        description: Option<&str>,
        created_by: Option<&str>,
    ) -> (t: Template)
        ensures
            is_uuid_v4_text(t.id@),
            t.name@ == name@,
            t.category@ == category@,
            t.content@ == content@,
            match description {
                Some(d) => t.description matches Some(s) && s@ == d@,
                None => t.description is None,
            },
            match created_by {
                Some(c) => t.created_by matches Some(s) && s@ == c@,
                None => t.created_by is None,
            },
            t.thumbnail is None,
            !t.is_system,
            t.created_at == t.updated_at,
            t.usage_count == 0,
    {
        let t = now();
        Template {
            id: new_id(),
            name: name.to_string(),
            description: match description {
                Some(d) => Some(d.to_string()),
                None => None,
            },
            category: category.to_string(),
            content: content.to_string(),
            thumbnail: None,
            is_system: false,
            created_by: match created_by {
                Some(c) => Some(c.to_string()),
                None => None,
            },
            created_at: t,
            updated_at: t,
            usage_count: 0,
        }
    }
}

/// The variables found in content never repeat a name, and every name
/// they hold was captured.
pub proof fn law_variable_names_distinct(caps: Seq<Option<Seq<char>>>)
    ensures
        forall|i: int, j: int|
            0 <= i < j < distinct_names(caps).len() ==> distinct_names(caps)[i] != distinct_names(
                caps,
            )[j],
        forall|i: int|
            0 <= i < distinct_names(caps).len() ==> caps.contains(Some(#[trigger] distinct_names(caps)[i])),
    decreases caps.len(),
{
    if caps.len() > 0 {
        let rest = caps.drop_last();
        let prev = distinct_names(rest);
        law_variable_names_distinct(rest);
        assert forall|i: int| 0 <= i < prev.len() implies caps.contains(Some(#[trigger] prev[i])) by {
            let k = choose|k: int| 0 <= k < rest.len() && rest[k] == Some(prev[i]);
            assert(caps[k] == Some(prev[i]));
        }
        if let Some(n) = caps.last() {
            if !prev.contains(n) {
                let d = prev.push(n);
                assert(caps[caps.len() - 1] == Some(n));
                assert forall|i: int, j: int| 0 <= i < j < d.len() implies d[i] != d[j] by {
                    if j == prev.len() {
                        assert(d[i] == prev[i]);
                    }
                }
                assert forall|i: int| 0 <= i < d.len() implies caps.contains(Some(#[trigger] d[i])) by {
                    if i < prev.len() {
                        assert(d[i] == prev[i]);
                    }
                }
            }
        }
    }
}

} // verus!
