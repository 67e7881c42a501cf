use interaction_handler::interaction::{
    ModalInteractionData, ModalInteractionDataActionRow, ModalInteractionDataComponent,
};
use interaction_handler::response::{TextInput, TextInputStyle};
use interaction_handler::util::{unwrap_modal, ModalError, ModalUnwrapper, TextInputBuilder};

fn field(custom_id: &str, value: Option<&str>) -> ModalInteractionDataComponent {
    ModalInteractionDataComponent {
        custom_id: custom_id.to_string(),
        value: value.map(|v| v.to_string()),
    }
}

fn rows() -> Vec<ModalInteractionDataActionRow> {
    vec![
        ModalInteractionDataActionRow { components: vec![field("name", Some("Ada"))] },
        ModalInteractionDataActionRow {
            components: vec![field("mail", None), field("unread", Some("x"))],
        },
    ]
}

#[test]
fn modal_error_keeps_its_text() {
    assert_eq!(ModalError::custom("missing field").to_string(), "missing field");
    assert_eq!(ModalError::custom(12).to_string(), "12");
}

#[test]
fn forms_are_read_row_by_row() {
    let modal = ModalInteractionData { custom_id: "form".to_string(), components: rows() };
    assert_eq!(
        unwrap_modal(modal),
        vec![("name".to_string(), Some("Ada".to_string())), ("mail".to_string(), None)]
    );
    let empty = ModalInteractionData { custom_id: "form".to_string(), components: vec![] };
    assert_eq!(unwrap_modal(empty), vec![]);
}

#[test]
fn fields_are_read_key_first() {
    let mut unwrapper = ModalUnwrapper::new(rows());
    assert!(!unwrapper.is_pending());
    assert!(!unwrapper.is_next_row_empty());
    assert_eq!(unwrapper.next_key(), Some("name".to_string()));
    assert!(unwrapper.is_pending());
    assert_eq!(unwrapper.next_value(), Some("Ada".to_string()));
    assert!(!unwrapper.is_pending());
    assert_eq!(unwrapper.next_key(), Some("mail".to_string()));
    assert_eq!(unwrapper.next_value(), None);
    assert_eq!(unwrapper.next_key(), None);
    assert!(!unwrapper.is_pending());
    assert_eq!(unwrapper.next_key(), None);
}

#[test]
fn a_skipped_value_is_lost() {
    let mut unwrapper = ModalUnwrapper::new(rows());
    assert_eq!(unwrapper.next_key(), Some("name".to_string()));
    assert_eq!(unwrapper.next_key(), Some("mail".to_string()));
    assert_eq!(unwrapper.next_value(), None);
}

#[test]
fn empty_rows_are_seen_coming() {
    let unwrapper =
        ModalUnwrapper::new(vec![ModalInteractionDataActionRow { components: vec![] }]);
    assert!(unwrapper.is_next_row_empty());
    assert!(!ModalUnwrapper::new(vec![]).is_next_row_empty());
}

#[test]
fn a_new_field_has_only_what_it_must_have() {
    let built =
        TextInputBuilder::new("Name".to_string(), "name".to_string(), TextInputStyle::Short)
            .build();
    assert_eq!(
        built,
        TextInput {
            custom_id: "name".to_string(),
            label: "Name".to_string(),
            max_length: None,
            min_length: None,
            placeholder: None,
            required: None,
            style: TextInputStyle::Short,
            value: None,
        }
    );
}

#[test]
fn each_setter_sets_its_own_part() {
    let built =
        TextInputBuilder::new("Name".to_string(), "name".to_string(), TextInputStyle::Paragraph)
            .max_length(100)
            .min_length(1)
            .min_length(2)
            .required(false)
            .placeholder("who are you".to_string())
            .value("nobody".to_string())
            .build();
    assert_eq!(
        built,
        TextInput {
            custom_id: "name".to_string(),
            label: "Name".to_string(),
            max_length: Some(100),
            min_length: Some(2),
            placeholder: Some("who are you".to_string()),
            required: Some(false),
            style: TextInputStyle::Paragraph,
            value: Some("nobody".to_string()),
        }
    );
}
