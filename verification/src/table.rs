//! The process-wide category-name table: the fixed, ordered list of
//! highlight class names that numeric event categories index into.

use vstd::prelude::*;
use vstd::string::StringSliceAdditionalSpecFns;
use vstd::string::StrSliceExecFns;

verus! {

/// The default category-name table, in its fixed order.
pub open spec fn default_highlight_names_spec() -> Seq<Seq<u8>> {
    seq![
        "variable".spec_bytes(),
        "variable.builtin".spec_bytes(),
        "variable.parameter".spec_bytes(),
        "variable.parameter.builtin".spec_bytes(),
        "variable.member".spec_bytes(),
        "constant".spec_bytes(),
        "constant.builtin".spec_bytes(),
        "constant.macro".spec_bytes(),
        "module".spec_bytes(),
        "module.builtin".spec_bytes(),
        "label".spec_bytes(),
        "string".spec_bytes(),
        "string.documentation".spec_bytes(),
        "string.regexp".spec_bytes(),
        "string.escape".spec_bytes(),
        "string.special".spec_bytes(),
        "string.special.symbol".spec_bytes(),
        "string.special.path".spec_bytes(),
        "string.special.url".spec_bytes(),
        "character".spec_bytes(),
        "character.special".spec_bytes(),
        "boolean".spec_bytes(),
        "number".spec_bytes(),
        "number.float".spec_bytes(),
        "type".spec_bytes(),
        "type.builtin".spec_bytes(),
        "type.definition".spec_bytes(),
        "attribute".spec_bytes(),
        "attribute.builtin".spec_bytes(),
        "property".spec_bytes(),
        "function".spec_bytes(),
        "function.builtin".spec_bytes(),
        "function.call".spec_bytes(),
        "function.macro".spec_bytes(),
        "function.method".spec_bytes(),
        "function.method.call".spec_bytes(),
        "constructor".spec_bytes(),
        "operator".spec_bytes(),
        "keyword".spec_bytes(),
        "keyword.coroutine".spec_bytes(),
        "keyword.function".spec_bytes(),
        "keyword.operator".spec_bytes(),
        "keyword.import".spec_bytes(),
        "keyword.type".spec_bytes(),
        "keyword.modifier".spec_bytes(),
        "keyword.repeat".spec_bytes(),
        "keyword.return".spec_bytes(),
        "keyword.debug".spec_bytes(),
        "keyword.exception".spec_bytes(),
        "keyword.conditional".spec_bytes(),
        "keyword.conditional.ternary".spec_bytes(),
        "keyword.directive".spec_bytes(),
        "keyword.directive.define".spec_bytes(),
        "punctuation.delimiter".spec_bytes(),
        "punctuation.bracket".spec_bytes(),
        "punctuation.special".spec_bytes(),
        "comment".spec_bytes(),
        "comment.documentation".spec_bytes(),
        "comment.error".spec_bytes(),
        "comment.warning".spec_bytes(),
        "comment.todo".spec_bytes(),
        "comment.note".spec_bytes(),
        "markup.strong".spec_bytes(),
        "markup.italic".spec_bytes(),
        "markup.strikethrough".spec_bytes(),
        "markup.underline".spec_bytes(),
        "markup.heading".spec_bytes(),
        "markup.heading.1".spec_bytes(),
        "markup.heading.2".spec_bytes(),
        "markup.heading.3".spec_bytes(),
        "markup.heading.4".spec_bytes(),
        "markup.heading.5".spec_bytes(),
        "markup.heading.6".spec_bytes(),
        "markup.quote".spec_bytes(),
        "markup.math".spec_bytes(),
        "markup.link".spec_bytes(),
        "markup.link.label".spec_bytes(),
        "markup.link.url".spec_bytes(),
        "markup.raw".spec_bytes(),
        "markup.raw.block".spec_bytes(),
        "markup.list".spec_bytes(),
        "markup.list.checked".spec_bytes(),
        "markup.list.unchecked".spec_bytes(),
        "diff.plus".spec_bytes(),
        "diff.minus".spec_bytes(),
        "diff.delta".spec_bytes(),
        "tag".spec_bytes(),
        "tag.builtin".spec_bytes(),
        "tag.attribute".spec_bytes(),
        "tag.delimiter".spec_bytes(),
    ]
}

/// One run of the table's names, in order.
spec fn names_a() -> Seq<Seq<u8>> {
    seq![
        "variable".spec_bytes(),
        "variable.builtin".spec_bytes(),
        "variable.parameter".spec_bytes(),
        "variable.parameter.builtin".spec_bytes(),
        "variable.member".spec_bytes(),
        "constant".spec_bytes(),
        "constant.builtin".spec_bytes(),
        "constant.macro".spec_bytes(),
        "module".spec_bytes(),
        "module.builtin".spec_bytes(),
        "label".spec_bytes(),
        "string".spec_bytes(),
        "string.documentation".spec_bytes(),
        "string.regexp".spec_bytes(),
        "string.escape".spec_bytes(),
    ]
}

fn push_names_a(r: &mut Vec<Vec<u8>>)
    ensures
        final(r).deep_view() == old(r).deep_view() + names_a(),
{
    r.push("variable".as_bytes_vec());
    r.push("variable.builtin".as_bytes_vec());
    r.push("variable.parameter".as_bytes_vec());
    r.push("variable.parameter.builtin".as_bytes_vec());
    r.push("variable.member".as_bytes_vec());
    r.push("constant".as_bytes_vec());
    r.push("constant.builtin".as_bytes_vec());
    r.push("constant.macro".as_bytes_vec());
    r.push("module".as_bytes_vec());
    r.push("module.builtin".as_bytes_vec());
    r.push("label".as_bytes_vec());
    r.push("string".as_bytes_vec());
    r.push("string.documentation".as_bytes_vec());
    r.push("string.regexp".as_bytes_vec());
    r.push("string.escape".as_bytes_vec());
    proof {
        assert(r.deep_view() =~~= old(r).deep_view() + names_a());
    }
}

/// One run of the table's names, in order.
spec fn names_b() -> Seq<Seq<u8>> {
    seq![
        "string.special".spec_bytes(),
        "string.special.symbol".spec_bytes(),
        "string.special.path".spec_bytes(),
        "string.special.url".spec_bytes(),
        "character".spec_bytes(),
        "character.special".spec_bytes(),
        "boolean".spec_bytes(),
        "number".spec_bytes(),
        "number.float".spec_bytes(),
        "type".spec_bytes(),
        "type.builtin".spec_bytes(),
        "type.definition".spec_bytes(),
        "attribute".spec_bytes(),
        "attribute.builtin".spec_bytes(),
        "property".spec_bytes(),
    ]
}

fn push_names_b(r: &mut Vec<Vec<u8>>)
    ensures
        final(r).deep_view() == old(r).deep_view() + names_b(),
{
    r.push("string.special".as_bytes_vec());
    r.push("string.special.symbol".as_bytes_vec());
    r.push("string.special.path".as_bytes_vec());
    r.push("string.special.url".as_bytes_vec());
    r.push("character".as_bytes_vec());
    r.push("character.special".as_bytes_vec());
    r.push("boolean".as_bytes_vec());
    r.push("number".as_bytes_vec());
    r.push("number.float".as_bytes_vec());
    r.push("type".as_bytes_vec());
    r.push("type.builtin".as_bytes_vec());
    r.push("type.definition".as_bytes_vec());
    r.push("attribute".as_bytes_vec());
    r.push("attribute.builtin".as_bytes_vec());
    r.push("property".as_bytes_vec());
    proof {
        assert(r.deep_view() =~~= old(r).deep_view() + names_b());
    }
}

/// One run of the table's names, in order.
spec fn names_c() -> Seq<Seq<u8>> {
    seq![
        "function".spec_bytes(),
        "function.builtin".spec_bytes(),
        "function.call".spec_bytes(),
        "function.macro".spec_bytes(),
        "function.method".spec_bytes(),
        "function.method.call".spec_bytes(),
        "constructor".spec_bytes(),
        "operator".spec_bytes(),
        "keyword".spec_bytes(),
        "keyword.coroutine".spec_bytes(),
        "keyword.function".spec_bytes(),
        "keyword.operator".spec_bytes(),
        "keyword.import".spec_bytes(),
        "keyword.type".spec_bytes(),
        "keyword.modifier".spec_bytes(),
    ]
}

fn push_names_c(r: &mut Vec<Vec<u8>>)
    ensures
        final(r).deep_view() == old(r).deep_view() + names_c(),
{
    r.push("function".as_bytes_vec());
    r.push("function.builtin".as_bytes_vec());
    r.push("function.call".as_bytes_vec());
    r.push("function.macro".as_bytes_vec());
    r.push("function.method".as_bytes_vec());
    r.push("function.method.call".as_bytes_vec());
    r.push("constructor".as_bytes_vec());
    r.push("operator".as_bytes_vec());
    r.push("keyword".as_bytes_vec());
    r.push("keyword.coroutine".as_bytes_vec());
    r.push("keyword.function".as_bytes_vec());
    r.push("keyword.operator".as_bytes_vec());
    r.push("keyword.import".as_bytes_vec());
    r.push("keyword.type".as_bytes_vec());
    r.push("keyword.modifier".as_bytes_vec());
    proof {
        assert(r.deep_view() =~~= old(r).deep_view() + names_c());
    }
}

/// One run of the table's names, in order.
spec fn names_d() -> Seq<Seq<u8>> {
    seq![
        "keyword.repeat".spec_bytes(),
        "keyword.return".spec_bytes(),
        "keyword.debug".spec_bytes(),
        "keyword.exception".spec_bytes(),
        "keyword.conditional".spec_bytes(),
        "keyword.conditional.ternary".spec_bytes(),
        "keyword.directive".spec_bytes(),
        "keyword.directive.define".spec_bytes(),
        "punctuation.delimiter".spec_bytes(),
        "punctuation.bracket".spec_bytes(),
        "punctuation.special".spec_bytes(),
        "comment".spec_bytes(),
        "comment.documentation".spec_bytes(),
        "comment.error".spec_bytes(),
        "comment.warning".spec_bytes(),
    ]
}

fn push_names_d(r: &mut Vec<Vec<u8>>)
    ensures
        final(r).deep_view() == old(r).deep_view() + names_d(),
{
    r.push("keyword.repeat".as_bytes_vec());
    r.push("keyword.return".as_bytes_vec());
    r.push("keyword.debug".as_bytes_vec());
    r.push("keyword.exception".as_bytes_vec());
    r.push("keyword.conditional".as_bytes_vec());
    r.push("keyword.conditional.ternary".as_bytes_vec());
    r.push("keyword.directive".as_bytes_vec());
    r.push("keyword.directive.define".as_bytes_vec());
    r.push("punctuation.delimiter".as_bytes_vec());
    r.push("punctuation.bracket".as_bytes_vec());
    r.push("punctuation.special".as_bytes_vec());
    r.push("comment".as_bytes_vec());
    r.push("comment.documentation".as_bytes_vec());
    r.push("comment.error".as_bytes_vec());
    r.push("comment.warning".as_bytes_vec());
    proof {
        assert(r.deep_view() =~~= old(r).deep_view() + names_d());
    }
}

/// One run of the table's names, in order.
spec fn names_e() -> Seq<Seq<u8>> {
    seq![
        "comment.todo".spec_bytes(),
        "comment.note".spec_bytes(),
        "markup.strong".spec_bytes(),
        "markup.italic".spec_bytes(),
        "markup.strikethrough".spec_bytes(),
        "markup.underline".spec_bytes(),
        "markup.heading".spec_bytes(),
        "markup.heading.1".spec_bytes(),
        "markup.heading.2".spec_bytes(),
        "markup.heading.3".spec_bytes(),
        "markup.heading.4".spec_bytes(),
        "markup.heading.5".spec_bytes(),
        "markup.heading.6".spec_bytes(),
        "markup.quote".spec_bytes(),
        "markup.math".spec_bytes(),
    ]
}

fn push_names_e(r: &mut Vec<Vec<u8>>)
    ensures
        final(r).deep_view() == old(r).deep_view() + names_e(),
{
    r.push("comment.todo".as_bytes_vec());
    r.push("comment.note".as_bytes_vec());
    r.push("markup.strong".as_bytes_vec());
    r.push("markup.italic".as_bytes_vec());
    r.push("markup.strikethrough".as_bytes_vec());
    r.push("markup.underline".as_bytes_vec());
    r.push("markup.heading".as_bytes_vec());
    r.push("markup.heading.1".as_bytes_vec());
    r.push("markup.heading.2".as_bytes_vec());
    r.push("markup.heading.3".as_bytes_vec());
    r.push("markup.heading.4".as_bytes_vec());
    r.push("markup.heading.5".as_bytes_vec());
    r.push("markup.heading.6".as_bytes_vec());
    r.push("markup.quote".as_bytes_vec());
    r.push("markup.math".as_bytes_vec());
    proof {
        assert(r.deep_view() =~~= old(r).deep_view() + names_e());
    }
}

/// One run of the table's names, in order.
spec fn names_f() -> Seq<Seq<u8>> {
    seq![
        "markup.link".spec_bytes(),
        "markup.link.label".spec_bytes(),
        "markup.link.url".spec_bytes(),
        "markup.raw".spec_bytes(),
        "markup.raw.block".spec_bytes(),
        "markup.list".spec_bytes(),
        "markup.list.checked".spec_bytes(),
        "markup.list.unchecked".spec_bytes(),
        "diff.plus".spec_bytes(),
        "diff.minus".spec_bytes(),
        "diff.delta".spec_bytes(),
        "tag".spec_bytes(),
        "tag.builtin".spec_bytes(),
        "tag.attribute".spec_bytes(),
        "tag.delimiter".spec_bytes(),
    ]
}

fn push_names_f(r: &mut Vec<Vec<u8>>)
    ensures
        final(r).deep_view() == old(r).deep_view() + names_f(),
{
    r.push("markup.link".as_bytes_vec());
    r.push("markup.link.label".as_bytes_vec());
    r.push("markup.link.url".as_bytes_vec());
    r.push("markup.raw".as_bytes_vec());
    r.push("markup.raw.block".as_bytes_vec());
    r.push("markup.list".as_bytes_vec());
    r.push("markup.list.checked".as_bytes_vec());
    r.push("markup.list.unchecked".as_bytes_vec());
    r.push("diff.plus".as_bytes_vec());
    r.push("diff.minus".as_bytes_vec());
    r.push("diff.delta".as_bytes_vec());
    r.push("tag".as_bytes_vec());
    r.push("tag.builtin".as_bytes_vec());
    r.push("tag.attribute".as_bytes_vec());
    r.push("tag.delimiter".as_bytes_vec());
    proof {
        assert(r.deep_view() =~~= old(r).deep_view() + names_f());
    }
}

/// Builds the default category-name table.  Every configuration of a run
/// is registered against one such table, so indices are comparable across
/// languages.
#[verifier::rlimit(60)]
pub fn default_highlight_names() -> (r: Vec<Vec<u8>>)
    ensures
        r.deep_view() == default_highlight_names_spec(),
        r@.len() == 90,
{
    let mut r: Vec<Vec<u8>> = Vec::new();
    push_names_a(&mut r);
    push_names_b(&mut r);
    push_names_c(&mut r);
    push_names_d(&mut r);
    push_names_e(&mut r);
    push_names_f(&mut r);
    proof {
        assert(r.deep_view() =~~= default_highlight_names_spec());
    }
    r
}

} // verus!
