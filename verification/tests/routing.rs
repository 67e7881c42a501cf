use interaction_handler::commands::CommandMap;
use interaction_handler::handler::InteractionHandler;
use interaction_handler::interaction::{
    CommandData, Event, Interaction, InteractionData, InteractionType,
    MessageComponentInteractionData, ModalInteractionData,
};
use interaction_handler::name_table::NameTable;
use interaction_handler::response::{
    InteractionResponse, InteractionResponseData, InteractionResponseType, ResponseRequest,
    TextInput, TextInputStyle,
};
use interaction_handler::step::{Step, Task, TaskEnd, Ticket, Unroutable};
use interaction_handler::util::TextInputBuilder;

type Handler = InteractionHandler<&'static str, &'static str, u32, u32>;

/// A handler that knows the command `greet` as number 7.
fn handler() -> Handler {
    let map = CommandMap {
        key: 0,
        disps: Box::leak(Box::new([(0, 0)])),
        entries: Box::leak(Box::new([("greet", 7)])),
    };
    InteractionHandler::new(Box::leak(Box::new(map)))
}

fn interaction(id: u64, kind: InteractionType, data: InteractionData) -> Interaction<&'static str> {
    Interaction {
        application_id: 77,
        data: Some(data),
        id,
        kind,
        token: format!("token {}", id),
        payload: "payload",
    }
}

fn command(id: u64, name: &str) -> Interaction<&'static str> {
    interaction(
        id,
        InteractionType::ApplicationCommand,
        InteractionData::ApplicationCommand(CommandData { name: name.to_string() }),
    )
}

fn modal_data(custom_id: &str) -> ModalInteractionData {
    ModalInteractionData { custom_id: custom_id.to_string(), components: vec![] }
}

fn modal(id: u64, custom_id: &str) -> Interaction<&'static str> {
    interaction(
        id,
        InteractionType::ModalSubmit,
        InteractionData::ModalSubmit(modal_data(custom_id)),
    )
}

fn component_data(custom_id: &str) -> MessageComponentInteractionData {
    MessageComponentInteractionData { custom_id: custom_id.to_string() }
}

fn component(id: u64, custom_id: &str) -> Interaction<&'static str> {
    interaction(
        id,
        InteractionType::MessageComponent,
        InteractionData::MessageComponent(component_data(custom_id)),
    )
}

fn without_data(mut i: Interaction<&'static str>) -> Interaction<&'static str> {
    i.data = None;
    i
}

fn ticket(command_id: usize) -> Ticket {
    Ticket { command_id, application_id: 77 }
}

fn text_field(custom_id: &str) -> TextInput {
    TextInputBuilder::new("Label".to_string(), custom_id.to_string(), TextInputStyle::Short).build()
}

#[test]
fn commands_run_under_consecutive_numbers() {
    let mut h = handler();
    for n in 0..3 {
        let step = h.handle(command(n as u64 + 1, "greet"));
        assert_eq!(
            step,
            Step::RunCommand {
                command: 7,
                task: Task {
                    ticket: ticket(n),
                    interaction: without_data(command(n as u64 + 1, "greet")),
                    data: CommandData { name: "greet".to_string() },
                },
            }
        );
    }
}

#[test]
fn unknown_command_is_ignored() {
    let mut h = handler();
    let step = h.handle(command(1, "leave"));
    assert_eq!(step, Step::Ignore(Unroutable::UnknownCommand("leave".to_string())));
    assert!(!h.is_running(1));
}

#[test]
fn empty_command_map_knows_no_command() {
    let mut h: Handler = InteractionHandler::new(Box::leak(Box::new(CommandMap::new())));
    let step = h.handle(command(1, "greet"));
    assert_eq!(step, Step::Ignore(Unroutable::UnknownCommand("greet".to_string())));
}

#[test]
fn ping_is_answered_with_its_own_token() {
    let mut h = handler();
    let ping = Interaction {
        application_id: 77,
        data: None,
        id: 5,
        kind: InteractionType::Ping,
        token: "t".to_string(),
        payload: (),
    };
    let step = h.handle(ping);
    assert_eq!(
        step,
        Step::Respond(ResponseRequest {
            application_id: 77,
            interaction_id: 5,
            token: "t".to_string(),
            response: InteractionResponse { kind: InteractionResponseType::Pong, data: None },
        })
    );
}

#[test]
fn events_other_than_interactions_are_passed_over() {
    let mut h = handler();
    let nothing: Event<&'static str> = Event::Other;
    assert_eq!(h.on_event(nothing), None);
    let step = h.on_event(Event::InteractionCreate(command(1, "greet")));
    assert!(matches!(step, Some(Step::RunCommand { command: 7, .. })));
}

#[test]
fn component_listener_hears_its_custom_id_again_and_again() {
    let mut h = handler();
    h.add_component_listener("vote".to_string(), "on vote");
    for (n, id) in ["vote", "vote:yes", "vote:yes:really"].iter().enumerate() {
        let step = h.handle(component(n as u64 + 1, id));
        assert_eq!(
            step,
            Step::RunComponentListener {
                listener: "on vote",
                task: Task {
                    ticket: ticket(n),
                    interaction: without_data(component(n as u64 + 1, id)),
                    data: component_data(id),
                },
            }
        );
    }
    let other = h.handle(component(9, "votes"));
    assert_eq!(other, Step::Ignore(Unroutable::UnknownComponent("votes".to_string())));
}

#[test]
fn unhooked_component_listener_hears_nothing() {
    let mut h = handler();
    h.add_component_listener("vote".to_string(), "on vote");
    h.add_component_listener("skip".to_string(), "on skip");
    h.unhook_component_listener("vote");
    h.unhook_component_listener("never there");
    let step = h.handle(component(1, "vote:yes"));
    assert_eq!(step, Step::Ignore(Unroutable::UnknownComponent("vote:yes".to_string())));
    assert!(!h.is_running(1));
    let other = h.handle(component(2, "skip"));
    assert!(matches!(other, Step::RunComponentListener { listener: "on skip", .. }));
}

#[test]
fn later_component_listener_replaces_the_earlier() {
    let mut h = handler();
    h.add_component_listener("vote".to_string(), "first");
    h.add_component_listener("vote".to_string(), "second");
    let step = h.handle(component(1, "vote"));
    assert!(matches!(step, Step::RunComponentListener { listener: "second", .. }));
    h.unhook_component_listener("vote");
    let step = h.handle(component(2, "vote"));
    assert!(matches!(step, Step::Ignore(Unroutable::UnknownComponent(_))));
}

#[test]
fn component_listener_cannot_take_the_name_oneshot() {
    let mut h = handler();
    h.add_component_listener("oneshot".to_string(), "greedy");
    let step = h.handle(component(1, "oneshot:x"));
    assert_eq!(step, Step::Ignore(Unroutable::WaiterDisappeared("oneshot:x".to_string())));
}

#[test]
fn component_waiter_is_woken_once() {
    let mut h = handler();
    let shown = h.oneshot_component_listener("pick one", 42);
    assert!(shown.starts_with("oneshot:pick one-"));
    assert_eq!(shown.len(), "oneshot:pick one-".len() + 6);
    let step = h.handle(component(1, &shown));
    assert_eq!(
        step,
        Step::WakeComponentWaiter {
            waiter: 42,
            interaction: without_data(component(1, &shown)),
            data: component_data(&shown),
        }
    );
    assert!(!h.is_running(1));
    let again = h.handle(component(2, &shown));
    assert_eq!(again, Step::Ignore(Unroutable::WaiterDisappeared(shown)));
}

#[test]
fn component_waiter_may_have_a_colon_in_its_message() {
    let mut h = handler();
    let shown = h.oneshot_component_listener("step 1: pick", 42);
    let step = h.handle(component(1, &shown));
    assert!(matches!(step, Step::WakeComponentWaiter { waiter: 42, .. }));
}

#[test]
fn component_waiters_wait_for_their_own_ids() {
    let mut h = handler();
    assert_eq!(h.oneshot_component_listener_as("a-1".to_string(), 1), "oneshot:a-1");
    assert_eq!(h.oneshot_component_listener_as("b-2".to_string(), 2), "oneshot:b-2");
    let step = h.handle(component(1, "oneshot:b-2"));
    assert!(matches!(step, Step::WakeComponentWaiter { waiter: 2, .. }));
    let step = h.handle(component(2, "a-1"));
    assert!(matches!(step, Step::Ignore(Unroutable::UnknownComponent(_))));
    let step = h.handle(component(3, "oneshot:a-1"));
    assert!(matches!(step, Step::WakeComponentWaiter { waiter: 1, .. }));
}

#[test]
fn modal_listener_hears_its_custom_id_again_and_again() {
    let mut h = handler();
    h.add_modal_listener("feedback".to_string(), "on feedback");
    for (n, id) in ["feedback", "feedback:42"].iter().enumerate() {
        let step = h.handle(modal(n as u64 + 1, id));
        assert_eq!(
            step,
            Step::RunModalListener {
                listener: "on feedback",
                task: Task {
                    ticket: ticket(n),
                    interaction: without_data(modal(n as u64 + 1, id)),
                    data: modal_data(id),
                },
            }
        );
    }
    h.unhook_modal_listener("feedback");
    let step = h.handle(modal(3, "feedback:42"));
    assert_eq!(step, Step::Ignore(Unroutable::UnknownModal("feedback:42".to_string())));
}

#[test]
fn modal_waiter_is_woken_once() {
    let mut h = handler();
    let asked = command(1, "greet");
    let request = h.show_modal(&asked, "Title".to_string(), vec![text_field("a")], "form", 13);
    let shown = request.response.data.unwrap().custom_id.unwrap();
    assert!(shown.starts_with("oneshot:form-"));
    let step = h.handle(modal(2, &shown));
    assert_eq!(
        step,
        Step::WakeModalWaiter {
            waiter: 13,
            interaction: without_data(modal(2, &shown)),
            data: modal_data(&shown),
        }
    );
    let again = h.handle(modal(3, &shown));
    assert_eq!(again, Step::Ignore(Unroutable::UnknownModal(shown)));
}

#[test]
fn modal_listener_comes_before_the_waiter() {
    let mut h = handler();
    let request = h.show_modal_as(&command(1, "greet"), "T".to_string(), vec![], "form", 13);
    let shown = request.response.data.unwrap().custom_id.unwrap();
    assert_eq!(shown, "oneshot:form");
    h.add_modal_listener("oneshot".to_string(), "greedy");
    let step = h.handle(modal(2, &shown));
    assert!(matches!(step, Step::RunModalListener { listener: "greedy", .. }));
    h.unhook_modal_listener("oneshot");
    let step = h.handle(modal(3, &shown));
    assert!(matches!(step, Step::WakeModalWaiter { waiter: 13, .. }));
}

#[test]
fn single_use_form_has_all_fields_in_one_row() {
    let mut h = handler();
    let request = h.show_modal_as(
        &command(8, "greet"),
        "Title".to_string(),
        vec![text_field("a"), text_field("b")],
        "form-abc",
        13,
    );
    assert_eq!(request.application_id, 77);
    assert_eq!(request.interaction_id, 8);
    assert_eq!(request.token, "token 8");
    assert_eq!(request.response.kind, InteractionResponseType::Modal);
    let data = request.response.data.unwrap();
    assert_eq!(data.title.as_deref(), Some("Title"));
    assert_eq!(data.custom_id.as_deref(), Some("oneshot:form-abc"));
    assert_eq!(data.content, None);
    let rows = data.components.unwrap();
    assert_eq!(rows.len(), 1);
    assert_eq!(rows[0].components, vec![text_field("a"), text_field("b")]);
}

#[test]
fn permanent_form_has_each_field_in_its_own_row() {
    let mut h = handler();
    h.add_modal_listener("form".to_string(), "on form");
    let (request, known) = h.show_modal_permanent(
        &command(8, "greet"),
        "Title".to_string(),
        vec![text_field("a"), text_field("b")],
        "form".to_string(),
    );
    assert!(known);
    assert_eq!(request.interaction_id, 8);
    assert_eq!(request.response.kind, InteractionResponseType::Modal);
    let data: InteractionResponseData = request.response.data.unwrap();
    assert_eq!(data.title.as_deref(), Some("Title"));
    assert_eq!(data.custom_id.as_deref(), Some("form"));
    assert_eq!(data.content, None);
    let rows = data.components.unwrap();
    assert_eq!(rows.len(), 2);
    assert_eq!(rows[0].components, vec![text_field("a")]);
    assert_eq!(rows[1].components, vec![text_field("b")]);
}

#[test]
fn permanent_form_without_a_listener_is_noticed() {
    let h = handler();
    let (request, known) =
        h.show_modal_permanent(&command(8, "greet"), "T".to_string(), vec![], "x".to_string());
    assert!(!known);
    assert_eq!(request.response.data.unwrap().components, Some(vec![]));
}

#[test]
fn responses_are_carried_along() {
    let h = handler();
    let request = h.send_response(&command(8, "greet"), 1234);
    assert_eq!(
        request,
        ResponseRequest {
            application_id: 77,
            interaction_id: 8,
            token: "token 8".to_string(),
            response: InteractionResponse {
                kind: InteractionResponseType::ChannelMessageWithSource,
                data: Some(1234),
            },
        }
    );
}

#[test]
fn message_with_components_is_heard_under_its_own_id() {
    let mut h = handler();
    let request = h.send_response_with_components(&command(8, "greet"), "hi", "on click");
    let data = request.response.data.unwrap();
    assert_eq!(data.message, "hi");
    assert!(data.custom_id.starts_with("components-"));
    assert_eq!(data.custom_id.len(), "components-".len() + 6);
    let step = h.handle(component(9, &data.custom_id));
    assert!(matches!(step, Step::RunComponentListener { listener: "on click", .. }));
    h.unhook_component_listener(&data.custom_id);
    let step = h.handle(component(10, &data.custom_id));
    assert!(matches!(step, Step::Ignore(Unroutable::UnknownComponent(_))));
}

#[test]
fn task_without_error_ends_quietly() {
    let mut h = handler();
    h.handle(command(1, "greet"));
    assert!(h.is_running(1));
    assert_eq!(h.finish_task(ticket(0), Ok(())), TaskEnd::Done);
    assert!(!h.is_running(1));
}

#[test]
fn error_is_reported_to_the_interaction() {
    let mut h = handler();
    h.handle(command(1, "greet"));
    h.handle(command(2, "greet"));
    let end = h.finish_task(ticket(1), Err("out of cheese".to_string()));
    assert_eq!(
        end,
        TaskEnd::Report(ResponseRequest {
            application_id: 77,
            interaction_id: 2,
            token: "token 2".to_string(),
            response: InteractionResponse {
                kind: InteractionResponseType::ChannelMessageWithSource,
                data: Some(InteractionResponseData {
                    components: None,
                    content: Some("Internal error! out of cheese".to_string()),
                    custom_id: None,
                    title: None,
                }),
            },
        })
    );
    assert!(h.is_running(1));
    assert!(!h.is_running(2));
}

#[test]
fn error_of_a_forgotten_task_goes_unreported() {
    let mut h = handler();
    h.handle(command(1, "greet"));
    assert_eq!(h.finish_task(ticket(0), Ok(())), TaskEnd::Done);
    assert_eq!(
        h.finish_task(ticket(0), Err("late".to_string())),
        TaskEnd::Unreported("late".to_string())
    );
}

#[test]
fn task_is_followed_through_several_forms() {
    let mut h = handler();
    let asked = command(1, "greet");
    h.handle(command(1, "greet"));
    h.handle(command(100, "greet"));
    let second = modal(2, "irrelevant");
    let third = modal(3, "irrelevant");
    assert!(h.is_running(1));
    h.modal_submitted(&asked, &second);
    assert!(!h.is_running(1));
    assert!(h.is_running(2));
    h.handle(command(101, "greet"));
    h.modal_submitted(&second, &third);
    assert_eq!(h.finish_task(ticket(1), Ok(())), TaskEnd::Done);
    match h.finish_task(ticket(0), Err("oops".to_string())) {
        TaskEnd::Report(request) => {
            assert_eq!(request.interaction_id, 3);
            assert_eq!(request.token, "token 3");
        }
        end => panic!("{:?}", end),
    }
    for id in [1, 2, 3, 100] {
        assert!(!h.is_running(id));
    }
    assert!(h.is_running(101));
}

#[test]
fn table_gives_values_back() {
    let mut table: NameTable<String> = NameTable::new();
    assert_eq!(table.get("a"), None);
    table.insert("a".to_string(), "1".to_string());
    table.insert("b".to_string(), "2".to_string());
    table.insert("a".to_string(), "3".to_string());
    assert_eq!(table.get("a"), Some(&"3".to_string()));
    assert_eq!(table.remove("a"), Some("3".to_string()));
    assert_eq!(table.remove("a"), None);
    assert_eq!(table.get("b"), Some(&"2".to_string()));
}
