use power_pizza_bot::bot::command::Command;
use power_pizza_bot::bot::error::BotError;
use power_pizza_bot::bot::format::SearchMatch;
use power_pizza_bot::bot::handler::{
    Change, Outgoing, Question, Recipient, Reply, ReplyEvent, ReplyStep,
};
use power_pizza_bot::bot::interaction::{InteractionType, CANCELLED, CHOOSE_ACTION, ALREADY_EXISTS};
use power_pizza_bot::bot::reply::{
    ALREADY_BETA, ALREADY_REQUESTED, BETA_ACCEPTED, NOTHING_TO_CANCEL, NOT_AUTHORIZED,
    NOT_WHITELISTED, NO_MATCHES, QUERY_TOO_SHORT, REQUEST_ERROR, REQUEST_SENT, SEARCHING,
    SEARCHING_EPISODE, USER_ALREADY_IN_BETA,
};
use power_pizza_bot::bot::user::BotUser;
use power_pizza_bot::transcript::data::Episode;

fn mario() -> BotUser {
    BotUser::new(7, Some("mario".to_string()), "Mario".to_string())
}

fn episode(id: u32, title: &str) -> Episode {
    Episode { id, title: title.to_string(), download_url: String::new() }
}

/// A reply by a whitelisted sender, after the whitelist was asked.
fn let_in(command: Command) -> (Reply, ReplyStep) {
    let mut reply = Reply::new(command, 100, Some(mario()), false);
    assert!(matches!(
        reply.advance(ReplyEvent::Begin),
        ReplyStep::Ask(Question::Whitelisted(7))
    ));
    let step = reply.advance(ReplyEvent::Whitelisted(true));
    (reply, step)
}

fn plain_to_chat(step: &ReplyStep) -> &str {
    match step {
        ReplyStep::Send(Outgoing::Plain(Recipient::Chat, text)) => text.as_str(),
        _ => panic!("not a plain message to the chat"),
    }
}

fn ends_well(reply: &mut Reply) {
    assert!(matches!(reply.advance(ReplyEvent::Sent), ReplyStep::Done(Ok(()))));
    assert!(reply.is_ended());
    assert!(matches!(reply.advance(ReplyEvent::Sent), ReplyStep::Ignored));
}

#[test]
fn a_sender_off_the_whitelist_is_turned_away() {
    let mut reply = Reply::new(Command::Search("pizza".to_string()), 100, Some(mario()), false);
    assert!(matches!(
        reply.advance(ReplyEvent::Begin),
        ReplyStep::Ask(Question::Whitelisted(7))
    ));
    let step = reply.advance(ReplyEvent::Whitelisted(false));
    assert_eq!(plain_to_chat(&step), NOT_WHITELISTED);
    ends_well(&mut reply);
}

#[test]
fn an_unknown_sender_is_not_looked_up() {
    let mut reply = Reply::new(Command::Help, 100, None, false);
    assert!(matches!(reply.advance(ReplyEvent::Begin), ReplyStep::Send(Outgoing::Help)));
    ends_well(&mut reply);
}

#[test]
fn only_the_administrator_may_list_users() {
    let mut reply = Reply::new(Command::BetaList, 100, Some(mario()), false);
    let step = reply.advance(ReplyEvent::Begin);
    assert_eq!(plain_to_chat(&step), NOT_AUTHORIZED);
    ends_well(&mut reply);
}

#[test]
fn the_administrator_gets_the_list() {
    let mut reply = Reply::new(Command::BetaWaitList, 100, Some(mario()), true);
    assert!(matches!(reply.advance(ReplyEvent::Begin), ReplyStep::Ask(Question::WaitList)));
    let users = vec![BotUser::new(1, Some("a".to_string()), "A".to_string())];
    let step = reply.advance(ReplyEvent::Users(users));
    assert_eq!(
        plain_to_chat(&step),
        "betaWaitList \\(1\\):\na \\([1](tg://bot_command?command=betaaccept 1)\\)"
    );
    ends_well(&mut reply);

    let mut reply = Reply::new(Command::BetaList, 100, Some(mario()), true);
    assert!(matches!(reply.advance(ReplyEvent::Begin), ReplyStep::Ask(Question::BetaList)));
}

#[test]
fn start_offers_the_actions_and_stores_the_interaction() {
    let (mut reply, step) = let_in(Command::Start);
    assert!(matches!(step, ReplyStep::Ask(Question::Interaction(7))));
    match reply.advance(ReplyEvent::Interaction(false)) {
        ReplyStep::Send(Outgoing::Keyboard(text, rows)) => {
            assert_eq!(text, CHOOSE_ACTION);
            assert_eq!(rows, InteractionType::keyboard());
        }
        _ => panic!("the keyboard was not offered"),
    }
    match reply.advance(ReplyEvent::Sent) {
        ReplyStep::Store(Change::SaveInteraction(interaction)) => {
            assert_eq!(interaction.chat(), 100);
            assert_eq!(interaction.user(), &mario());
            assert_eq!(interaction.ty(), InteractionType::Start);
        }
        _ => panic!("the interaction was not stored"),
    }
    assert!(matches!(reply.advance(ReplyEvent::Stored), ReplyStep::Done(Ok(()))));
    assert!(reply.is_ended());
}

#[test]
fn start_says_when_an_interaction_is_going_on() {
    let (mut reply, _) = let_in(Command::Start);
    let step = reply.advance(ReplyEvent::Interaction(true));
    assert_eq!(plain_to_chat(&step), ALREADY_EXISTS);
    ends_well(&mut reply);
}

#[test]
fn cancel_deletes_the_interaction() {
    let (mut reply, step) = let_in(Command::Cancel);
    assert!(matches!(step, ReplyStep::Ask(Question::Interaction(7))));
    let step = reply.advance(ReplyEvent::Interaction(true));
    assert_eq!(plain_to_chat(&step), CANCELLED);
    assert!(matches!(
        reply.advance(ReplyEvent::Sent),
        ReplyStep::Store(Change::DeleteInteraction(7))
    ));
    assert!(matches!(reply.advance(ReplyEvent::Stored), ReplyStep::Done(Ok(()))));
}

#[test]
fn cancel_says_when_there_is_nothing_to_cancel() {
    let (mut reply, _) = let_in(Command::Cancel);
    let step = reply.advance(ReplyEvent::Interaction(false));
    assert_eq!(plain_to_chat(&step), NOTHING_TO_CANCEL);
    ends_well(&mut reply);
}

#[test]
fn start_and_beta_need_a_known_sender() {
    for command in [Command::Start, Command::Cancel, Command::Beta] {
        let mut reply = Reply::new(command, 100, None, false);
        let step = reply.advance(ReplyEvent::Begin);
        assert_eq!(plain_to_chat(&step), REQUEST_ERROR);
        ends_well(&mut reply);
    }
}

#[test]
fn a_short_query_is_not_searched() {
    let (mut reply, step) = let_in(Command::Search("ab".to_string()));
    assert_eq!(plain_to_chat(&step), QUERY_TOO_SHORT);
    ends_well(&mut reply);
}

#[test]
fn a_title_search_lists_the_episodes() {
    let (mut reply, step) = let_in(Command::Search("pizza".to_string()));
    match step {
        ReplyStep::Ask(Question::SearchMeta(query)) => assert_eq!(query, "pizza"),
        _ => panic!("the titles were not searched"),
    }
    match reply.advance(ReplyEvent::Episodes(vec![episode(1, "Uno")])) {
        ReplyStep::Send(Outgoing::Markdown(page)) => {
            assert_eq!(page, "\n\n1: [Uno](https://www.spreaker.com/episode/1)")
        }
        _ => panic!("the episodes were not listed"),
    }
    ends_well(&mut reply);
}

#[test]
fn a_long_answer_is_sent_page_by_page() {
    let (mut reply, _) = let_in(Command::Search("pizza".to_string()));
    let long = "x".repeat(3000);
    let episodes = vec![episode(1, &format!("{}\n\n{}", long, long))];
    let first = match reply.advance(ReplyEvent::Episodes(episodes)) {
        ReplyStep::Send(Outgoing::Markdown(page)) => page,
        _ => panic!("no first page"),
    };
    let second = match reply.advance(ReplyEvent::Sent) {
        ReplyStep::Send(Outgoing::Markdown(page)) => page,
        _ => panic!("no second page"),
    };
    assert_eq!(first, format!("\n\n1: [{}", long));
    assert_eq!(second, format!("{}](https://www.spreaker.com/episode/1)", long));
    ends_well(&mut reply);
}

#[test]
fn too_many_results_are_not_listed() {
    let (mut reply, _) = let_in(Command::Search("pizza".to_string()));
    let many: Vec<Episode> = (0..51).map(|i| episode(i, "t")).collect();
    let step = reply.advance(ReplyEvent::Episodes(many));
    assert_eq!(
        plain_to_chat(&step),
        "Troppi risultati trovati (51), per favore affina la ricerca"
    );
    ends_well(&mut reply);
}

#[test]
fn a_transcript_search_announces_itself() {
    let (mut reply, step) = let_in(Command::SearchAdvanced("forno".to_string()));
    assert_eq!(plain_to_chat(&step), SEARCHING);
    match reply.advance(ReplyEvent::Sent) {
        ReplyStep::Ask(Question::SearchAll(query)) => assert_eq!(query, "forno"),
        _ => panic!("the transcripts were not searched"),
    }
    match reply.advance(ReplyEvent::Episodes(vec![])) {
        ReplyStep::Send(Outgoing::Markdown(page)) => assert_eq!(page, "\n\nFound episodes:\n"),
        _ => panic!("no answer"),
    }
    ends_well(&mut reply);
}

#[test]
fn a_search_in_one_episode_finds_the_episode_first() {
    let (mut reply, step) =
        let_in(Command::SearchAdvancedEpisode("\"episodio uno\" forno".to_string()));
    assert_eq!(plain_to_chat(&step), SEARCHING_EPISODE);
    match reply.advance(ReplyEvent::Sent) {
        ReplyStep::Ask(Question::FindEpisode(name)) => assert_eq!(name, "episodio uno"),
        _ => panic!("the episode was not looked for"),
    }
    match reply.advance(ReplyEvent::EpisodeId(12)) {
        ReplyStep::Ask(Question::SearchOne(12, query)) => assert_eq!(query, "forno"),
        _ => panic!("the transcript was not searched"),
    }
    let step = reply.advance(ReplyEvent::Matches(episode(12, "Uno"), vec![]));
    assert_eq!(plain_to_chat(&step), NO_MATCHES);
    ends_well(&mut reply);
}

#[test]
fn the_matches_of_an_episode_are_listed() {
    let (mut reply, _) = let_in(Command::SearchAdvancedEpisode("12 forno".to_string()));
    reply.advance(ReplyEvent::Sent);
    reply.advance(ReplyEvent::EpisodeId(12));
    let matches = vec![SearchMatch { from: 61, to: 65, hint: "il forno".to_string() }];
    match reply.advance(ReplyEvent::Matches(episode(12, "Uno"), matches)) {
        ReplyStep::Send(Outgoing::Markdown(page)) => assert_eq!(
            page,
            "\n\nRisultati per [Uno](https://www.spreaker.com/episode/12)\n01:01 \\- 01:05\n>\\.\\.\\.il forno\\.\\.\\."
        ),
        _ => panic!("the matches were not listed"),
    }
}

#[test]
fn a_search_in_one_episode_without_its_arguments_is_malformed() {
    let (mut reply, _) = let_in(Command::SearchAdvancedEpisode("".to_string()));
    assert!(matches!(
        reply.advance(ReplyEvent::Sent),
        ReplyStep::Done(Err(BotError::MalformedQuery))
    ));

    let (mut reply, _) = let_in(Command::SearchAdvancedEpisode("broken\"".to_string()));
    assert!(matches!(
        reply.advance(ReplyEvent::Sent),
        ReplyStep::Done(Err(BotError::MalformedQuery))
    ));

    let (mut reply, _) = let_in(Command::SearchAdvancedEpisode("12".to_string()));
    assert!(matches!(reply.advance(ReplyEvent::Sent), ReplyStep::Ask(Question::FindEpisode(_))));
    assert!(matches!(
        reply.advance(ReplyEvent::EpisodeId(12)),
        ReplyStep::Done(Err(BotError::MalformedQuery))
    ));
    assert!(reply.is_ended());
}

#[test]
fn a_request_for_the_beta_is_stored_and_confirmed() {
    let mut reply = Reply::new(Command::Beta, 100, Some(mario()), false);
    assert!(matches!(reply.advance(ReplyEvent::Begin), ReplyStep::Ask(Question::User(7))));
    match reply.advance(ReplyEvent::User(None)) {
        ReplyStep::Store(Change::UpdateUser(user)) => {
            assert_eq!(user.id, 7);
            assert!(user.waitlist);
            assert!(!user.beta);
        }
        _ => panic!("the user was not stored"),
    }
    let step = reply.advance(ReplyEvent::Stored);
    assert_eq!(plain_to_chat(&step), REQUEST_SENT);
    ends_well(&mut reply);
}

#[test]
fn a_second_request_for_the_beta_is_not_stored() {
    let mut waiting = mario();
    waiting.waitlist = true;
    let mut reply = Reply::new(Command::Beta, 100, Some(mario()), false);
    reply.advance(ReplyEvent::Begin);
    let step = reply.advance(ReplyEvent::User(Some(waiting.clone())));
    assert_eq!(plain_to_chat(&step), ALREADY_REQUESTED);
    ends_well(&mut reply);

    waiting.beta = true;
    let mut reply = Reply::new(Command::Beta, 100, Some(mario()), false);
    reply.advance(ReplyEvent::Begin);
    let step = reply.advance(ReplyEvent::User(Some(waiting)));
    assert_eq!(plain_to_chat(&step), ALREADY_BETA);
}

#[test]
fn accepting_a_user_stores_tells_them_and_tells_the_administrator() {
    let mut reply = Reply::new(Command::BetaAccept("55".to_string()), 100, Some(mario()), true);
    assert!(matches!(reply.advance(ReplyEvent::Begin), ReplyStep::Ask(Question::User(55))));
    let candidate = BotUser::new(55, None, "Anna".to_string());
    match reply.advance(ReplyEvent::User(Some(candidate))) {
        ReplyStep::Store(Change::UpdateUser(user)) => {
            assert_eq!(user.id, 55);
            assert!(user.beta);
        }
        _ => panic!("the user was not stored"),
    }
    match reply.advance(ReplyEvent::Stored) {
        ReplyStep::Send(Outgoing::Plain(Recipient::User(55), text)) => {
            assert_eq!(text, BETA_ACCEPTED)
        }
        _ => panic!("the user was not told"),
    }
    let step = reply.advance(ReplyEvent::Sent);
    assert_eq!(plain_to_chat(&step), "User 55 accepted into beta");
    ends_well(&mut reply);
}

#[test]
fn accepting_needs_a_number_and_a_user() {
    let mut reply = Reply::new(Command::BetaAccept("anna".to_string()), 100, None, true);
    assert!(matches!(
        reply.advance(ReplyEvent::Begin),
        ReplyStep::Done(Err(BotError::MalformedQuery))
    ));

    let mut reply = Reply::new(Command::BetaAccept("55".to_string()), 100, None, true);
    reply.advance(ReplyEvent::Begin);
    assert!(matches!(
        reply.advance(ReplyEvent::User(None)),
        ReplyStep::Done(Err(BotError::MalformedQuery))
    ));

    let mut member = BotUser::new(55, None, "Anna".to_string());
    member.beta = true;
    let mut reply = Reply::new(Command::BetaAccept("55".to_string()), 100, None, true);
    reply.advance(ReplyEvent::Begin);
    let step = reply.advance(ReplyEvent::User(Some(member)));
    assert_eq!(plain_to_chat(&step), USER_ALREADY_IN_BETA);
}

#[test]
fn work_that_fails_ends_the_reply_with_its_error() {
    let (mut reply, _) = let_in(Command::Search("pizza".to_string()));
    assert!(matches!(
        reply.advance(ReplyEvent::Failed(BotError::NotImplemented)),
        ReplyStep::Done(Err(BotError::NotImplemented))
    ));
    assert!(reply.is_ended());
    assert!(matches!(reply.advance(ReplyEvent::Episodes(vec![])), ReplyStep::Ignored));
}

#[test]
fn a_reply_ignores_an_event_out_of_turn() {
    let mut reply = Reply::new(Command::Help, 100, None, false);
    assert!(matches!(reply.advance(ReplyEvent::Sent), ReplyStep::Ignored));
    assert!(matches!(reply.advance(ReplyEvent::Failed(BotError::NotImplemented)), ReplyStep::Ignored));
    assert!(!reply.is_ended());
    assert!(matches!(reply.advance(ReplyEvent::Begin), ReplyStep::Send(Outgoing::Help)));
    assert!(matches!(reply.advance(ReplyEvent::Stored), ReplyStep::Ignored));
    assert!(matches!(reply.advance(ReplyEvent::Begin), ReplyStep::Ignored));
    ends_well(&mut reply);
}
