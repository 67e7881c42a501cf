//! Forms: building their fields, and reading what a user filled in.

use crate::interaction::{
    ModalInteractionData, ModalInteractionDataActionRow, ModalInteractionDataComponent,
};
use crate::response::{TextInput, TextInputStyle};
use vstd::prelude::*;
use vstd::string::to_string_from_display_ensures;

verus! {

/// Why a form could not be read.
pub struct ModalError(String);

impl ModalError {
    /// The text of the error.
    pub closed spec fn text(self) -> String {
        self.0
    }

    /// An error with the text of `val`.
    pub fn custom<T: std::fmt::Display>(val: T) -> (error: Self)
        ensures
            to_string_from_display_ensures(&val, error.text()),
    {
        ModalError(val.to_string())
    }

    /// The text of the error.
    pub fn to_string(&self) -> (text: String)
        ensures
            text == self.text(),
    {
        self.0.clone()
    }
}

/// The field that a row of a form is about: its first one.
pub open spec fn field_of(row: ModalInteractionDataActionRow) -> ModalInteractionDataComponent {
    row.components@[0]
}

/// Every row has a field.
pub open spec fn rows_filled(rows: Seq<ModalInteractionDataActionRow>) -> bool {
    forall|i: int| 0 <= i < rows.len() ==> (#[trigger] rows[i]).components@.len() > 0
}

/// Reads a form field by field: first a field's custom ID, then its value.
pub struct ModalUnwrapper {
    rows: Vec<ModalInteractionDataActionRow>,
    value: Option<Option<String>>,
}

impl ModalUnwrapper {
    /// The rows that have not been read yet.
    pub closed spec fn rows(self) -> Seq<ModalInteractionDataActionRow> {
        self.rows@
    }

    /// The value of the field whose custom ID was read last, until it is read too.
    pub closed spec fn pending(self) -> Option<Option<String>> {
        self.value
    }

    /// A reader of the given rows.
    pub fn new(rows: Vec<ModalInteractionDataActionRow>) -> (unwrapper: Self)
        ensures
            unwrapper.rows() == rows@,
            unwrapper.pending() is None,
    {
        ModalUnwrapper { rows, value: None }
    }

    /// Whether a field's custom ID has been read and its value has not.
    pub fn is_pending(&self) -> (pending: bool)
        ensures
            pending == self.pending() is Some,
    {
        self.value.is_some()
    }

    /// Whether the next row has no field.
    pub fn is_next_row_empty(&self) -> (empty: bool)
        ensures
            empty == (self.rows().len() > 0 && self.rows()[0].components@.len() == 0),
    {
        self.rows.len() > 0 && self.rows[0].components.len() == 0
    }

    /// Reads the custom ID of the next field, if there is one. A value that is still
    /// pending is skipped.
    pub fn next_key(&mut self) -> (key: Option<String>)
        requires
            old(self).rows().len() > 0 ==> old(self).rows()[0].components@.len() > 0,
        ensures
            old(self).rows().len() == 0 ==> key is None && *final(self) == *old(self),
            old(self).rows().len() > 0 ==> {
                &&& key == Some(field_of(old(self).rows()[0]).custom_id)
                &&& key == Some(old(self).rows()[0].components@[0].custom_id)
                &&& final(self).pending() == Some(old(self).rows()[0].components@[0].value)
                &&& final(self).rows() == old(self).rows().skip(1)
                &&& final(self).pending() == Some(field_of(old(self).rows()[0]).value)
            },
    {
        if self.rows.len() == 0 {
            return None;
        }
        let row = self.rows.remove(0);
        proof {
            assert(self.rows@ =~= old(self).rows@.skip(1));
        }
        let mut components = row.components;
        let field = components.remove(0);
        self.value = Some(field.value);
        Some(field.custom_id)
    }

    /// Reads the value of the field whose custom ID was read last.
    pub fn next_value(&mut self) -> (value: Option<String>)
        requires
            old(self).pending() is Some,
        ensures
            Some(value) == old(self).pending(),
            final(self).pending() is None,
            final(self).rows() == old(self).rows(),
    {
        self.value.take().unwrap()
    }
}

/// What a form says: the custom ID and the value of each row's field, in order.
pub fn unwrap_modal(modal: ModalInteractionData) -> (entries: Vec<(String, Option<String>)>)
    requires
        rows_filled(modal.components@),
    ensures
        entries@ == modal.components@.map_values(
            |row: ModalInteractionDataActionRow| (field_of(row).custom_id, field_of(row).value),
        ),
        entries@.len() == modal.components@.len(),
        forall|i: int|
            0 <= i < entries@.len() ==> #[trigger] entries@[i] == (
                modal.components@[i].components@[0].custom_id,
                modal.components@[i].components@[0].value,
            ),
{
    let ghost rows = modal.components@;
    let mut unwrapper = ModalUnwrapper::new(modal.components);
    let mut entries: Vec<(String, Option<String>)> = Vec::new();
    loop
        invariant
            rows_filled(rows),
            entries@.len() <= rows.len(),
            unwrapper.rows() == rows.skip(entries@.len() as int),
            forall|i: int|
                0 <= i < entries@.len() ==> #[trigger] entries@[i] == (
                    field_of(rows[i]).custom_id,
                    field_of(rows[i]).value,
                ),
        ensures
            entries@.len() == rows.len(),
        decreases unwrapper.rows().len(),
    {
        match unwrapper.next_key() {
            Some(key) => {
                let value = unwrapper.next_value();
                entries.push((key, value));
            },
            None => {
                break;
            },
        }
    }
    entries
}

/// Builds a text field.
pub struct TextInputBuilder {
    inner: TextInput,
}

impl View for TextInputBuilder {
    type V = TextInput;

    closed spec fn view(&self) -> TextInput {
        self.inner
    }
}

impl TextInputBuilder {
    /// A field about which nothing but its label, its custom ID and its style is said.
    pub fn new(label: String, custom_id: String, style: TextInputStyle) -> (builder: Self)
        ensures
            builder@ == (TextInput {
                custom_id,
                label,
                max_length: None,
                min_length: None,
                placeholder: None,
                required: None,
                style,
                value: None,
            }),
    {
        TextInputBuilder {
            inner: TextInput {
                custom_id,
                label,
                max_length: None,
                min_length: None,
                placeholder: None,
                required: None,
                style,
                value: None,
            },
        }
    }

    /// The field.
    pub fn build(self) -> (field: TextInput)
        ensures
            field == self@,
    {
        self.inner
    }

    /// Sets how many characters the user may enter at most.
    pub fn max_length(self, max_length: u16) -> (builder: Self)
        ensures
            builder@ == (TextInput { max_length: Some(max_length), ..self@ }),
    {
        TextInputBuilder { inner: TextInput { max_length: Some(max_length), ..self.inner } }
    }

    /// Sets how many characters the user has to enter at least.
    pub fn min_length(self, min_length: u16) -> (builder: Self)
        ensures
            builder@ == (TextInput { min_length: Some(min_length), ..self@ }),
    {
        TextInputBuilder { inner: TextInput { min_length: Some(min_length), ..self.inner } }
    }

    /// Sets whether the user has to fill the field in.
    pub fn required(self, required: bool) -> (builder: Self)
        ensures
            builder@ == (TextInput { required: Some(required), ..self@ }),
    {
        TextInputBuilder { inner: TextInput { required: Some(required), ..self.inner } }
    }

    /// Sets what an empty field shows.
    pub fn placeholder(self, placeholder: String) -> (builder: Self)
        ensures
            builder@ == (TextInput { placeholder: Some(placeholder), ..self@ }),
    {
        TextInputBuilder { inner: TextInput { placeholder: Some(placeholder), ..self.inner } }
    }

    /// Sets what the field is filled with at first.
    pub fn value(self, value: String) -> (builder: Self)
        ensures
            builder@ == (TextInput { value: Some(value), ..self@ }),
    {
        TextInputBuilder { inner: TextInput { value: Some(value), ..self.inner } }
    }
}

} // verus!
