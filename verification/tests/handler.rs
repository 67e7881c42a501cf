//! Whole conversations with the handler, with a client that only takes down what it is to
//! send.

use interaction_handler::commands::CommandMap;
use interaction_handler::handler::InteractionHandler;
use interaction_handler::interaction::{
    CommandData, Interaction, InteractionData, InteractionType, MessageComponentInteractionData,
    ModalInteractionData,
};
use interaction_handler::response::{InteractionResponseType, ResponseRequest};
use interaction_handler::step::{Step, TaskEnd, Ticket};
use twilight_model::channel::message::component::{ActionRow, Button, ButtonStyle, Component};
use twilight_model::http::interaction::InteractionResponseData;
use twilight_util::builder::InteractionResponseDataBuilder;

const HELLO: usize = 0;
const ERROR: usize = 1;
const MODAL: usize = 2;
const COMPONENTS: usize = 3;

/// A command map with the given names, numbered in order.
fn command_map(names: [&'static str; 4]) -> &'static CommandMap {
    let orders: Vec<[usize; 4]> = (0..256)
        .map(|n| [n % 4, n / 4 % 4, n / 16 % 4, n / 64])
        .filter(|order| (0..4).all(|i| order.contains(&i)))
        .collect();
    for key in 0..1_000_000 {
        for order in &orders {
            let entries: Vec<(&'static str, usize)> =
                order.iter().map(|i| (names[*i], *i)).collect();
            let map = CommandMap {
                key,
                disps: Box::leak(Box::new([(0, 0)])),
                entries: Box::leak(entries.into_boxed_slice()),
            };
            if (0..4).all(|i| map.get(names[i]) == Some(&i)) {
                return Box::leak(Box::new(map));
            }
        }
    }
    unreachable!()
}

/// What the client was asked to send.
#[derive(Debug)]
struct Sent {
    interaction_id: u64,
    token: String,
    kind: InteractionResponseType,
    custom_id: Option<String>,
    content: Option<String>,
}

type ReplyFn = Box<dyn Fn(&Sent) -> Vec<Interaction<()>>>;

/// A task that waits for its form to come back.
struct Waiting {
    ticket: Ticket,
    interaction: Interaction<()>,
}

/// Runs the commands `hello`, `error`, `modal` and `components`.
struct Bot {
    handler: InteractionHandler<&'static str, &'static str, usize, usize>,
    sent: Vec<Sent>,
    reply_fn: Option<ReplyFn>,
    waiting: Vec<Option<Waiting>>,
}

impl Bot {
    fn new(reply_fn: Option<ReplyFn>) -> Bot {
        let commands = command_map(["hello", "error", "modal", "components"]);
        Bot {
            handler: InteractionHandler::new(commands),
            sent: Vec::new(),
            reply_fn,
            waiting: Vec::new(),
        }
    }

    fn send<D>(
        &mut self,
        request: ResponseRequest<D>,
        parts: fn(D) -> (Option<String>, Option<String>),
    ) {
        let (custom_id, content) = match request.response.data {
            Some(data) => parts(data),
            None => (None, None),
        };
        let sent = Sent {
            interaction_id: request.interaction_id,
            token: request.token,
            kind: request.response.kind,
            custom_id,
            content,
        };
        println!("replying to: {}", sent.interaction_id);
        let replies = match &self.reply_fn {
            Some(f) => f(&sent),
            None => vec![],
        };
        self.sent.push(sent);
        for reply in replies {
            self.handle(reply);
        }
    }

    fn finish(&mut self, ticket: Ticket, result: Result<(), String>) {
        match self.handler.finish_task(ticket, result) {
            TaskEnd::Done => {}
            TaskEnd::Report(request) => {
                self.send(request, |data| (data.custom_id, data.content));
            }
            TaskEnd::Unreported(error) => panic!("{}", error),
        }
    }

    fn handle(&mut self, interaction: Interaction<()>) {
        match self.handler.handle(interaction) {
            Step::Respond(request) => self.send(request, |data| (data.custom_id, data.content)),
            Step::RunCommand { command: HELLO, task } => {
                let response = InteractionResponseDataBuilder::new().content("yo").build();
                let request = self.handler.send_response(&task.interaction, response);
                self.send(request, |data: InteractionResponseData| (data.custom_id, data.content));
                self.finish(task.ticket, Ok(()));
            }
            Step::RunCommand { command: ERROR, task } => {
                self.finish(task.ticket, Err("yeet".to_string()));
            }
            Step::RunCommand { command: MODAL, task } => {
                let waiter = self.waiting.len();
                let request = self.handler.show_modal(
                    &task.interaction,
                    String::from("yeet"),
                    vec![],
                    "showin the modal",
                    waiter,
                );
                self.waiting.push(Some(Waiting {
                    ticket: task.ticket,
                    interaction: task.interaction,
                }));
                self.send(request, |data| (data.custom_id, data.content));
            }
            Step::RunCommand { command: COMPONENTS, task } => {
                let response = InteractionResponseDataBuilder::new()
                    .components(vec![Component::ActionRow(ActionRow {
                        components: vec![Component::Button(Button {
                            custom_id: Some("yeet".into()),
                            disabled: false,
                            emoji: None,
                            label: Some("yo".into()),
                            style: ButtonStyle::Primary,
                            url: None,
                        })],
                    })])
                    .build();
                let request = self.handler.send_response_with_components(
                    &task.interaction,
                    response,
                    "heyo",
                );
                self.send(request, |data| (Some(data.custom_id), data.message.content));
                self.finish(task.ticket, Ok(()));
            }
            Step::RunComponentListener { listener, task } => {
                let response = InteractionResponseDataBuilder::new().content(listener).build();
                let request = self.handler.send_response(&task.interaction, response);
                self.send(request, |data: InteractionResponseData| (data.custom_id, data.content));
                println!("just handled interaction no. {}", task.interaction.id);
                if task.interaction.id == 4 {
                    self.handler.unhook_component_listener(&task.data.custom_id);
                }
                self.finish(task.ticket, Ok(()));
            }
            Step::WakeModalWaiter { waiter, interaction, .. } => {
                let task = self.waiting[waiter].take().expect("woken twice");
                assert!(self.handler.is_running(task.interaction.id));
                self.handler.modal_submitted(&task.interaction, &interaction);
                self.finish(task.ticket, Err("yeet".to_string()));
            }
            step => println!("nothing to do: {:?}", step),
        }
    }
}

fn ping() -> Interaction<()> {
    Interaction {
        application_id: 1,
        data: None,
        id: 1,
        kind: InteractionType::Ping,
        token: "".into(),
        payload: (),
    }
}

fn command(id: u64, name: &str) -> Interaction<()> {
    Interaction {
        application_id: 1,
        data: Some(InteractionData::ApplicationCommand(CommandData { name: name.into() })),
        id,
        kind: InteractionType::ApplicationCommand,
        token: "".into(),
        payload: (),
    }
}

fn modal_submit(id: u64, custom_id: String) -> Interaction<()> {
    Interaction {
        application_id: 1,
        data: Some(InteractionData::ModalSubmit(ModalInteractionData {
            custom_id,
            components: vec![],
        })),
        id,
        kind: InteractionType::ModalSubmit,
        token: "yeet lol".into(),
        payload: (),
    }
}

fn component(id: u64, custom_id: String) -> Interaction<()> {
    Interaction {
        application_id: 1,
        data: Some(InteractionData::MessageComponent(MessageComponentInteractionData {
            custom_id,
        })),
        id,
        kind: InteractionType::MessageComponent,
        token: "yeet lol".into(),
        payload: (),
    }
}

#[test]
fn test_ping_gets_pong() {
    let mut bot = Bot::new(None);
    bot.handle(ping());

    let resps = bot.sent;
    assert_eq!(resps.len(), 1);
    assert_eq!(resps[0].kind, InteractionResponseType::Pong);
}

#[test]
fn test_command_response() {
    let mut bot = Bot::new(None);
    bot.handle(command(1, "hello"));

    let resps = bot.sent;
    assert_eq!(resps.len(), 1);
    assert_eq!(resps[0].kind, InteractionResponseType::ChannelMessageWithSource);
    assert_eq!(resps[0].content.as_deref(), Some("yo"));
}

#[test]
fn test_command_error() {
    let mut bot = Bot::new(None);
    bot.handle(command(1, "error"));

    let resps = bot.sent;
    assert_eq!(resps.len(), 1);
    assert_eq!(resps[0].kind, InteractionResponseType::ChannelMessageWithSource);
    assert_eq!(resps[0].content.as_deref(), Some("Internal error! yeet"));
}

#[test]
fn test_modal_show() {
    let mut bot = Bot::new(Some(Box::new(|sent| {
        if sent.interaction_id == 1001 {
            let custom_id =
                sent.custom_id.clone().expect("app did not provide a custom ID on the modal");
            vec![modal_submit(1, custom_id)]
        } else {
            vec![]
        }
    })));
    bot.handle(command(1001, "modal"));

    let resps = bot.sent;
    if resps.len() != 2 {
        panic!("expected two entries, found {}: {:?}", resps.len(), resps);
    }
    assert_eq!(resps[0].kind, InteractionResponseType::Modal);
    if resps[1].kind != InteractionResponseType::ChannelMessageWithSource {
        panic!("expected an error message, got {:?}", resps[1]);
    }
    assert_eq!(resps[1].interaction_id, 1);
    assert_eq!(resps[1].token, "yeet lol");
    assert_eq!(resps[1].content.as_deref(), Some("Internal error! yeet"));
    assert!(!bot.handler.is_running(1001));
    assert!(!bot.handler.is_running(1));
}

#[test]
fn test_message_components() {
    let mut bot = Bot::new(Some(Box::new(|sent| {
        if sent.interaction_id == 1 {
            let cid =
                sent.custom_id.clone().expect("app did not provide a custom ID on the message");
            vec![component(2, cid.clone()), component(3, cid.clone()), component(4, cid.clone())]
        } else {
            vec![]
        }
    })));
    bot.handle(command(1, "components"));
    println!("first handle() completed ok");

    let resps = &bot.sent;
    if resps.len() != 4 {
        panic!("expected two entries, found {}: {:?}", resps.len(), resps);
    }
    if resps[1].kind != InteractionResponseType::ChannelMessageWithSource {
        panic!("expected an error message, got {:?}", resps[1]);
    }
    for (i, resp) in resps.iter().enumerate().skip(1) {
        assert_eq!(resp.interaction_id, i as u64 + 1);
        assert_eq!(resp.content.as_deref(), Some("heyo"));
    }

    let cid = resps[0].custom_id.clone().unwrap();
    bot.handle(component(5, cid));
    assert_eq!(bot.sent.len(), 4);
}

#[test]
fn unknown_commands_are_ignored() {
    let mut bot = Bot::new(None);
    bot.handle(command(1, "helloo"));
    bot.handle(command(2, ""));
    assert!(bot.sent.is_empty());
    assert!(!bot.handler.is_running(1));
}

#[test]
fn autocomplete_requests_run_their_command() {
    let mut bot = Bot::new(None);
    let mut request = command(1, "hello");
    request.kind = InteractionType::ApplicationCommandAutocomplete;
    bot.handle(request);
    assert_eq!(bot.sent.len(), 1);
}

#[test]
fn a_ping_is_a_ping_whatever_it_brings() {
    let mut bot = Bot::new(None);
    let mut request = command(1, "hello");
    request.kind = InteractionType::Ping;
    bot.handle(request);
    assert_eq!(bot.sent.len(), 1);
    assert_eq!(bot.sent[0].kind, InteractionResponseType::Pong);
    assert!(!bot.handler.is_running(1));
}

#[test]
fn two_forms_at_once_find_their_own_tasks() {
    let mut bot = Bot::new(None);
    bot.handle(command(10, "modal"));
    bot.handle(command(20, "modal"));
    let first = bot.sent[0].custom_id.clone().unwrap();
    let second = bot.sent[1].custom_id.clone().unwrap();
    assert_ne!(first, second);
    bot.handle(modal_submit(21, second.clone()));
    assert_eq!(bot.sent[2].interaction_id, 21);
    assert!(bot.handler.is_running(10));
    assert!(!bot.handler.is_running(20));
    bot.handle(modal_submit(22, second));
    assert_eq!(bot.sent.len(), 3);
    bot.handle(modal_submit(11, first));
    assert_eq!(bot.sent[3].interaction_id, 11);
    assert!(!bot.handler.is_running(10));
}
