//! The rules that a block lays on the elements that it holds. An element is
//! held as a document, so the rules read its tag and its members.

use vstd::prelude::*;
use crate::blocks::BuildError;
use crate::encode::{ToJson, json_each, tag_of};
use crate::json::{
    Json, JsonNumber, json_as_array, json_as_str, json_as_u64, json_get, json_of, member,
};
use crate::strings::str_eq;
use super::common::BlockElement;
use super::selects::{
    MultiStaticSelectElement, StaticSelectElement, lemma_multi_static_select_element_shape,
    lemma_static_select_element_shape,
};

verus! {

/// Whether a document has, under a key, an array with at least one item.
pub open spec fn has_items(j: Json, key: Seq<char>) -> bool {
    member(j, key) matches Some(Json::Array(items)) && items.len() > 0
}

/// The rule on a menu over fixed options: it has options or option groups,
/// and not both. An empty list counts as none.
pub open spec fn static_select_violation(j: Json) -> Option<Seq<char>> {
    let has_options = has_items(j, "options"@);
    let has_groups = has_items(j, "option_groups"@);
    if has_options && has_groups {
        Some("static_select cannot specify both options and option_groups"@)
    } else if !has_options && !has_groups {
        Some("static_select requires options or option_groups"@)
    } else {
        None
    }
}

/// Whether a document says that at most zero items may be chosen.
pub open spec fn zero_max_selected(j: Json) -> bool {
    member(j, "max_selected_items"@) == Some(Json::Number(JsonNumber::Int(0)))
}

/// The first rule that an element breaks, by its tag: a `static_select` obeys
/// the rule on menus over fixed options; a `multi_static_select` obeys it too
/// and, where it limits the number of choices, allows at least one. An
/// element of any other kind breaks no rule.
pub open spec fn element_violation(j: Json) -> Option<Seq<char>> {
    if tag_of(j) == "static_select"@ {
        static_select_violation(j)
    } else if tag_of(j) == "multi_static_select"@ {
        if static_select_violation(j) is Some {
            static_select_violation(j)
        } else if zero_max_selected(j) {
            Some("multi_static_select max_selected_items must be greater than 0"@)
        } else {
            None
        }
    } else {
        None
    }
}

/// The first rule that the first offending element of a sequence breaks.
pub open spec fn first_violation(elements: Seq<Json>) -> Option<Seq<char>>
    decreases elements.len(),
{
    if elements.len() == 0 {
        None
    } else if element_violation(elements[0]) is Some {
        element_violation(elements[0])
    } else {
        first_violation(elements.drop_first())
    }
}

fn has_items_under(value: &serde_json::Value, key: &str) -> (r: bool)
    ensures
        r == has_items(json_of(*value), key@),
{
    match json_get(value, key) {
        Some(found) => match json_as_array(found) {
            Some(items) => items.len() > 0,
            None => false,
        },
        None => false,
    }
}

fn allows_no_choice(value: &serde_json::Value) -> (r: bool)
    ensures
        r == zero_max_selected(json_of(*value)),
{
    match json_get(value, "max_selected_items") {
        Some(found) => match json_as_u64(found) {
            Some(n) => n == 0,
            None => false,
        },
        None => false,
    }
}

fn no_tag() -> (tag: &'static str)
    ensures
        tag@ == Seq::<char>::empty(),
{
    proof {
        reveal_strlit("");
        assert(""@ =~= Seq::<char>::empty());
    }
    ""
}

/// The tag of a document: the string under `type`, or the empty string.
pub fn tag_in(value: &serde_json::Value) -> (tag: &str)
    ensures
        tag@ == tag_of(json_of(*value)),
{
    match json_get(value, "type") {
        Some(found) => match json_as_str(found) {
            Some(tag) => tag,
            None => no_tag(),
        },
        None => no_tag(),
    }
}

/// Holds a menu over fixed options to its rule. The rule is the same for a
/// menu with one choice and a menu with several.
pub fn validate_static_select(value: &serde_json::Value, _is_multi: bool) -> (r: Result<
    (),
    BuildError,
>)
    ensures
        match r {
            Ok(_) => static_select_violation(json_of(*value)) is None,
            Err(e) => static_select_violation(json_of(*value)) == Some(e@),
        },
{
    let has_options = has_items_under(value, "options");
    let has_groups = has_items_under(value, "option_groups");
    if has_options && has_groups {
        return Err(
            BuildError::message("static_select cannot specify both options and option_groups"),
        );
    }
    if !has_options && !has_groups {
        return Err(BuildError::message("static_select requires options or option_groups"));
    }
    Ok(())
}

/// Holds an element to the rules of its kind.
pub fn validate_element(element: &BlockElement) -> (r: Result<(), BuildError>)
    ensures
        match r {
            Ok(_) => element_violation(element.json()) is None,
            Err(e) => element_violation(element.json()) == Some(e@),
        },
{
    let tag = tag_in(&element.0);
    if str_eq(tag, "static_select") {
        validate_static_select(&element.0, false)
    } else if str_eq(tag, "multi_static_select") {
        match validate_static_select(&element.0, true) {
            Err(e) => Err(e),
            Ok(_) => {
                if allows_no_choice(&element.0) {
                    Err(
                        BuildError::message(
                            "multi_static_select max_selected_items must be greater than 0",
                        ),
                    )
                } else {
                    Ok(())
                }
            },
        }
    } else {
        Ok(())
    }
}

/// Holds each element of a list to the rules of its kind, and stops at the
/// first that breaks one.
pub fn validate_elements(elements: &Vec<BlockElement>) -> (r: Result<(), BuildError>)
    ensures
        match r {
            Ok(_) => first_violation(json_each(elements@)) is None,
            Err(e) => first_violation(json_each(elements@)) == Some(e@),
        },
{
    let ghost all = json_each(elements@);
    let mut i: usize = 0;
    proof {
        assert(all.skip(0) =~= all);
    }
    while i < elements.len()
        invariant
            i <= elements.len(),
            all == json_each(elements@),
            first_violation(all) == first_violation(all.skip(i as int)),
        decreases elements.len() - i,
    {
        proof {
            assert(all.skip(i as int)[0] == elements@[i as int].json());
            assert(all.skip(i as int).drop_first() =~= all.skip(i + 1));
        }
        match validate_element(&elements[i]) {
            Err(e) => {
                return Err(e);
            },
            Ok(_) => {},
        }
        i += 1;
    }
    proof {
        assert(all.skip(i as int).len() == 0);
    }
    Ok(())
}

/// Whether an optional list is set and has at least one item.
pub open spec fn filled<T>(list: Option<Vec<T>>) -> bool {
    list matches Some(items) && items@.len() > 0
}

/// A menu over fixed options with both options and option groups is refused,
/// and so is one with neither; with exactly one of the two it is accepted. A
/// list that is set but empty counts as not set.
pub proof fn lemma_static_select_rule(e: StaticSelectElement)
    ensures
        element_violation(e.json()) == (if filled(e.options) && filled(e.option_groups) {
            Some("static_select cannot specify both options and option_groups"@)
        } else if !filled(e.options) && !filled(e.option_groups) {
            Some("static_select requires options or option_groups"@)
        } else {
            None
        }),
{
    lemma_static_select_element_shape(e);
}

/// A menu over fixed options for several choices obeys the same rule, and is
/// refused too where it allows at most zero choices.
pub proof fn lemma_multi_static_select_rule(e: MultiStaticSelectElement)
    ensures
        element_violation(e.json()) == (if filled(e.options) && filled(e.option_groups) {
            Some("static_select cannot specify both options and option_groups"@)
        } else if !filled(e.options) && !filled(e.option_groups) {
            Some("static_select requires options or option_groups"@)
        } else if e.max_selected_items == Some(0u32) {
            Some("multi_static_select max_selected_items must be greater than 0"@)
        } else {
            None
        }),
{
    lemma_multi_static_select_element_shape(e);
    reveal_strlit("static_select");
    reveal_strlit("multi_static_select");
    assert("static_select"@.len() == 13);
    assert("multi_static_select"@.len() == 19);
}

/// An element whose tag is neither `static_select` nor `multi_static_select`
/// breaks no rule.
pub proof fn lemma_other_elements_pass(j: Json)
    requires
        tag_of(j) != "static_select"@,
        tag_of(j) != "multi_static_select"@,
    ensures
        element_violation(j) is None,
{
}

} // verus!
