//! The embed that reports an error to the user.

use vstd::prelude::*;
use vstd::string::StringExecFns;

use crate::embed::{blank_model, Embed, EmbedField, EmbedModel, FieldModel, COLOUR_RED};

verus! {

/// The error card: a red embed whose description shows `error` as code,
/// followed by `fields`.
pub open spec fn error_model(error: Seq<char>, fields: Seq<FieldModel>) -> EmbedModel {
    EmbedModel {
        title: Some("Oh no! An error occurred..."@),
        description: Some("```"@ + error + "```"@),
        color: Some(COLOUR_RED),
        fields,
        footer_text: Some("Any Questions? Well we dont have a support chat :P"@),
        ..blank_model()
    }
}

/// The error card for `error` with extra `fields`.
pub fn error_embed(error: &str, fields: Vec<EmbedField>) -> (e: Embed)
    ensures
        e@ == error_model(error@, fields@.map_values(|f: EmbedField| f@)),
{
    let mut description = String::from_str("```");
    description.append(error);
    description.append("```");
    let mut e = Embed::blank();
    e.color = Some(COLOUR_RED);
    e.title = Some(String::from_str("Oh no! An error occurred..."));
    e.description = Some(description);
    e.fields = fields;
    e.footer_text = Some(String::from_str("Any Questions? Well we dont have a support chat :P"));
    e
}

} // verus!
