use guessbot::commands::NickPlan;
use guessbot::commands::nick_ack;
use guessbot::commands::nick_plan;
use guessbot::commands::ping_reply;
use guessbot::dispatch::DispatchConfig;
use guessbot::dispatch::DispatchError;
use guessbot::dispatch::DispatchOutcome;
use guessbot::dispatch::DispatchRequest;
use guessbot::dispatch::RestrictionKind;
use guessbot::dispatch::dispatch;
use guessbot::dispatch::format_error_report;
use guessbot::dispatch::mention_nick_of;
use guessbot::dispatch::mention_of;
use guessbot::dispatch::unknown_command_text;
use guessbot::registry::CommandSpec;
use guessbot::registry::Registry;
use guessbot::registry::RegistryError;
use guessbot::registry::builtin_registry;

const OWNER: u64 = 352216606098587650;
const BOT: u64 = 42;

fn config() -> DispatchConfig {
    DispatchConfig { prefix: "m!".to_string(), bot_id: BOT, owners: vec![OWNER] }
}

fn request(content: &str, author_id: u64, guild: Option<u64>, from_bot: bool) -> DispatchRequest {
    DispatchRequest {
        content: content.to_string(),
        author_id,
        channel_id: 7,
        guild_id: guild,
        from_bot,
    }
}

#[test]
fn bot_authors_are_ignored() {
    let cfg = config();
    let reg = builtin_registry();
    let req = request("m!ping", OWNER, Some(1), true);
    assert!(matches!(dispatch(&cfg, &reg, &req), DispatchOutcome::Ignored));
    let req = request("<@42>", OWNER, Some(1), true);
    assert!(matches!(dispatch(&cfg, &reg, &req), DispatchOutcome::Ignored));
}

#[test]
fn mention_is_answered_with_the_prefix() {
    let cfg = config();
    let reg = builtin_registry();
    assert_eq!(mention_of(BOT), "<@42>");
    assert_eq!(mention_nick_of(BOT), "<@!42>");
    for content in ["<@42>", "<@!42>"] {
        let req = request(content, 5, None, false);
        match dispatch(&cfg, &reg, &req) {
            DispatchOutcome::PrefixNotice { reply } => assert_eq!(reply, "Prefix is `m!`"),
            other => panic!("expected a prefix notice, got {}", outcome_name(&other)),
        }
    }
}

#[test]
fn unprefixed_text_is_ignored() {
    let cfg = config();
    let reg = builtin_registry();
    for content in ["hello", "<@43>", "ping", "m?ping", ""] {
        let req = request(content, 5, Some(1), false);
        assert!(matches!(dispatch(&cfg, &reg, &req), DispatchOutcome::Ignored));
    }
}

#[test]
fn prefix_alone_is_ignored() {
    let cfg = config();
    let reg = builtin_registry();
    let req = request("m!", 5, Some(1), false);
    assert!(matches!(dispatch(&cfg, &reg, &req), DispatchOutcome::Ignored));
    let req = request("m! ping", 5, Some(1), false);
    assert!(matches!(dispatch(&cfg, &reg, &req), DispatchOutcome::Ignored));
}

#[test]
fn ping_is_invoked() {
    let cfg = config();
    let reg = builtin_registry();
    let req = request("m!ping", 5, Some(1), false);
    match dispatch(&cfg, &reg, &req) {
        DispatchOutcome::Invoke { name, args } => {
            assert_eq!(name, "ping");
            assert_eq!(args, "");
        },
        other => panic!("expected an invocation, got {}", outcome_name(&other)),
    }
    assert_eq!(ping_reply(), "Pong!");
}

#[test]
fn unknown_names_are_reported() {
    let cfg = config();
    let reg = builtin_registry();
    let req = request("m!pong", 5, Some(1), false);
    match dispatch(&cfg, &reg, &req) {
        DispatchOutcome::UnknownCommand { name } => assert_eq!(name, "pong"),
        other => panic!("expected unknown command, got {}", outcome_name(&other)),
    }
    assert_eq!(unknown_command_text("pong"), "Unknown command: pong");
}

#[test]
fn nick_without_arguments_is_refused_with_counts() {
    let cfg = config();
    let reg = builtin_registry();
    let req = request("m!nick", OWNER, Some(1), false);
    match dispatch(&cfg, &reg, &req) {
        DispatchOutcome::Rejected { name, error } => {
            assert_eq!(name, "nick");
            match &error {
                DispatchError::NotEnoughArguments { min, given } => {
                    assert_eq!(*min, 1);
                    assert_eq!(*given, 0);
                },
                _ => panic!("expected a not-enough-arguments error"),
            }
            assert_eq!(
                format_error_report("nick", &error),
                "Not enough arguments in nick!\nminimum required 1/supplied arguments 0"
            );
        },
        other => panic!("expected a rejection, got {}", outcome_name(&other)),
    }
}

#[test]
fn nick_trailing_space_counts_zero_arguments() {
    let cfg = config();
    let reg = builtin_registry();
    let req = request("m!nick ", OWNER, Some(1), false);
    match dispatch(&cfg, &reg, &req) {
        DispatchOutcome::Rejected { error, .. } => {
            assert!(matches!(
                error,
                DispatchError::NotEnoughArguments { min: 1, given: 0 }
            ));
        },
        other => panic!("expected a rejection, got {}", outcome_name(&other)),
    }
}

#[test]
fn nick_by_non_owner_violates_restriction_without_invocation() {
    let cfg = config();
    let reg = builtin_registry();
    let req = request("m!nick reset", 5, Some(1), false);
    match dispatch(&cfg, &reg, &req) {
        DispatchOutcome::Rejected { name, error } => {
            assert_eq!(name, "nick");
            assert!(matches!(
                error,
                DispatchError::RestrictionViolated { kind: RestrictionKind::OwnerOnly }
            ));
        },
        other => panic!("expected a rejection, got {}", outcome_name(&other)),
    }
}

#[test]
fn nick_outside_a_guild_violates_restriction() {
    let cfg = config();
    let reg = builtin_registry();
    let req = request("m!nick reset", OWNER, None, false);
    match dispatch(&cfg, &reg, &req) {
        DispatchOutcome::Rejected { error, .. } => {
            assert!(matches!(
                error,
                DispatchError::RestrictionViolated { kind: RestrictionKind::GuildOnly }
            ));
        },
        other => panic!("expected a rejection, got {}", outcome_name(&other)),
    }
}

#[test]
fn nick_by_owner_in_guild_is_invoked_with_args() {
    let cfg = config();
    let reg = builtin_registry();
    let req = request("m!nick New Name", OWNER, Some(1), false);
    match dispatch(&cfg, &reg, &req) {
        DispatchOutcome::Invoke { name, args } => {
            assert_eq!(name, "nick");
            assert_eq!(args, "New Name");
        },
        other => panic!("expected an invocation, got {}", outcome_name(&other)),
    }
}

#[test]
fn nick_plan_and_acknowledgements() {
    assert_eq!(nick_plan("reset"), NickPlan::Reset);
    assert_eq!(nick_plan("RESET"), NickPlan::Reset);
    assert_eq!(nick_plan("ReSeT"), NickPlan::Reset);
    assert_eq!(nick_plan("Bob"), NickPlan::Change);
    assert_eq!(nick_plan("resets"), NickPlan::Change);
    assert_eq!(nick_ack("reset"), "Reset my nickname");
    assert_eq!(nick_ack("Bob"), "Changed my nickname to `\"Bob\"`");
}

#[test]
fn restriction_and_handler_reports() {
    let e = DispatchError::RestrictionViolated { kind: RestrictionKind::GuildOnly };
    assert_eq!(
        format_error_report("nick", &e),
        "Unhandled error in nick: for use in guilds only"
    );
    let e = DispatchError::RestrictionViolated { kind: RestrictionKind::OwnerOnly };
    assert_eq!(
        format_error_report("nick", &e),
        "Unhandled error in nick: for use by owners only"
    );
    let e = guessbot::dispatch::wrap_handler_failure("send failed".to_string());
    assert_eq!(
        format_error_report("ngg", &e),
        "Unhandled error in ngg: send failed"
    );
}

#[test]
fn register_refuses_duplicates() {
    let mut reg = Registry::new();
    let ok = reg.register(CommandSpec {
        name: "ping".to_string(),
        min_args: 0,
        guild_only: false,
        owner_only: false,
    });
    assert!(ok.is_ok());
    let dup = reg.register(CommandSpec {
        name: "ping".to_string(),
        min_args: 2,
        guild_only: true,
        owner_only: true,
    });
    assert_eq!(dup, Err(RegistryError::DuplicateCommand));
    assert!(reg.resolve("ping").is_some());
    assert!(reg.resolve("pong").is_none());
}

fn outcome_name(o: &DispatchOutcome) -> &'static str {
    match o {
        DispatchOutcome::Ignored => "ignored",
        DispatchOutcome::PrefixNotice { .. } => "prefix notice",
        DispatchOutcome::UnknownCommand { .. } => "unknown command",
        DispatchOutcome::Rejected { .. } => "rejected",
        DispatchOutcome::Invoke { .. } => "invoke",
    }
}
