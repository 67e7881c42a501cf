//! Responses to interactions.

use vstd::prelude::*;

verus! {

/// How tall a text field is.
#[derive(Clone, Copy, Debug, PartialEq, Eq, Structural)]
pub enum TextInputStyle {
    Short,
    Paragraph,
}

/// A text field of a form.
#[derive(Debug, PartialEq, Eq)]
pub struct TextInput {
    pub custom_id: String,
    pub label: String,
    pub max_length: Option<u16>,
    pub min_length: Option<u16>,
    pub placeholder: Option<String>,
    pub required: Option<bool>,
    pub style: TextInputStyle,
    pub value: Option<String>,
}

/// A row of text fields.
#[derive(Debug, PartialEq, Eq)]
pub struct ActionRow {
    pub components: Vec<TextInput>,
}

/// What a response consists of.
#[derive(Debug, PartialEq, Eq)]
pub struct InteractionResponseData {
    pub components: Option<Vec<ActionRow>>,
    pub content: Option<String>,
    pub custom_id: Option<String>,
    pub title: Option<String>,
}

/// What a response does.
#[derive(Clone, Copy, Debug, PartialEq, Eq, Structural)]
pub enum InteractionResponseType {
    Pong,
    ChannelMessageWithSource,
    Modal,
}

/// A response with its data.
#[derive(Debug, PartialEq, Eq)]
pub struct InteractionResponse<D> {
    pub kind: InteractionResponseType,
    pub data: Option<D>,
}

/// A response and the interaction that it is for.
#[derive(Debug, PartialEq, Eq)]
pub struct ResponseRequest<D> {
    pub application_id: u64,
    pub interaction_id: u64,
    pub token: String,
    pub response: InteractionResponse<D>,
}

} // verus!
