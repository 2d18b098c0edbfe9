//! The dispatcher: strips the configured prefix from an inbound message,
//! resolves the command, evaluates its restrictions and argument arity, and
//! reports every per-invocation failure as a value, never as control flow.

use vstd::prelude::*;
use crate::registry::CommandSpec;
use crate::registry::Registry;
use crate::text::append_u64;
use crate::text::count_tokens;
use crate::text::dec_string;
use crate::text::find_space;
use crate::text::first_space_at;
use crate::text::has_prefix;
use crate::text::starts_with;
use crate::text::token_count;

verus! {

/// One inbound message, as handed to dispatch; created per message and
/// discarded once dispatch completes.
pub struct DispatchRequest {
    pub content: String,
    pub author_id: u64,
    pub channel_id: u64,
    pub guild_id: Option<u64>,
    pub from_bot: bool,
}

/// Which restriction refused an invocation.
#[derive(Clone, Copy, PartialEq, Eq, Structural, Debug)]
pub enum RestrictionKind {
    GuildOnly,
    OwnerOnly,
}

/// A per-invocation failure, surfaced to the user and then dropped.
pub enum DispatchError {
    NotEnoughArguments { min: usize, given: usize },
    RestrictionViolated { kind: RestrictionKind },
    HandlerFailed { cause: String },
}

/// What dispatch decided for one message.
pub enum DispatchOutcome {
    /// Nothing is sent and nothing changes.
    Ignored,
    /// The message was exactly a mention of the bot: answer with the
    /// carried reply, which names the prefix.
    PrefixNotice { reply: String },
    /// The prefix matched but no command bears the name.
    UnknownCommand { name: String },
    /// The command was resolved but refused before its handler ran.
    Rejected { name: String, error: DispatchError },
    /// Invoke the named command's handler on the argument text.
    Invoke { name: String, args: String },
}

/// Configuration fixed at startup: the command prefix, the bot's own
/// identity, and the owner allow-list.
pub struct DispatchConfig {
    pub prefix: String,
    pub bot_id: u64,
    pub owners: Vec<u64>,
}

/// The raw mention form of an identity.
pub open spec fn mention_text(id: u64) -> Seq<char> {
    "<@"@ + dec_string(id as nat) + ">"@
}

/// The mention form that carries the nickname marker.
pub open spec fn mention_nick_text(id: u64) -> Seq<char> {
    "<@!"@ + dec_string(id as nat) + ">"@
}

/// The reply to a bare mention.
pub open spec fn prefix_reply_text(prefix: Seq<char>) -> Seq<char> {
    "Prefix is `"@ + prefix + "`"@
}

/// What dispatch owes for one resolved command: restrictions first (guild,
/// then owner), arity next, and only then an invocation.
pub open spec fn command_post(
    cfg: DispatchConfig,
    req: DispatchRequest,
    cmd: CommandSpec,
    name: Seq<char>,
    args: Seq<char>,
    r: DispatchOutcome,
) -> bool {
    if cmd.guild_only && req.guild_id is None {
        r matches DispatchOutcome::Rejected { name: n, error } && n@ == name && (
        error matches DispatchError::RestrictionViolated { kind } && kind
            == RestrictionKind::GuildOnly)
    } else if cmd.owner_only && !cfg.owners@.contains(req.author_id) {
        r matches DispatchOutcome::Rejected { name: n, error } && n@ == name && (
        error matches DispatchError::RestrictionViolated { kind } && kind
            == RestrictionKind::OwnerOnly)
    } else if token_count(args) < cmd.min_args {
        r matches DispatchOutcome::Rejected { name: n, error } && n@ == name && (
        error matches DispatchError::NotEnoughArguments { min, given } && min == cmd.min_args
            && given == token_count(args))
    } else {
        r matches DispatchOutcome::Invoke { name: n, args: a } && n@ == name && a@ == args
    }
}

/// Everything dispatch owes for one message: bot authors are ignored; an
/// exact mention is answered with the prefix; unprefixed text is ignored;
/// prefixed text is split at the first space into a name and argument
/// text, resolved, and checked as `command_post` says.
pub open spec fn dispatch_post(
    cfg: DispatchConfig,
    reg: Registry,
    req: DispatchRequest,
    r: DispatchOutcome,
) -> bool {
    let c = req.content@;
    let stripped = c.skip(cfg.prefix@.len() as int);
    let k = first_space_at(stripped);
    let name = stripped.subrange(0, k);
    let args = if k < stripped.len() {
        stripped.subrange(k + 1, stripped.len() as int)
    } else {
        Seq::<char>::empty()
    };
    if req.from_bot {
        r is Ignored
    } else if c == mention_text(cfg.bot_id) || c == mention_nick_text(cfg.bot_id) {
        r matches DispatchOutcome::PrefixNotice { reply } && reply@ == prefix_reply_text(
            cfg.prefix@,
        )
    } else if !starts_with(c, cfg.prefix@) {
        r is Ignored
    } else if name.len() == 0 {
        r is Ignored
    } else if !reg.has_name(name) {
        r matches DispatchOutcome::UnknownCommand { name: n } && n@ == name
    } else {
        forall|i: int|
            0 <= i < reg.commands@.len() && (#[trigger] reg.commands@[i]).name@ == name
                ==> command_post(cfg, req, reg.commands@[i], name, args, r)
    }
}

/// Builds the raw mention string of an identity.
pub fn mention_of(id: u64) -> (r: String)
    ensures
        r@ == mention_text(id),
{
    let mut m = "<@".to_owned();
    append_u64(&mut m, id);
    m.append(">");
    proof {
        assert(m@ =~= mention_text(id));
    }
    m
}

/// Builds the nickname-marker mention string of an identity.
pub fn mention_nick_of(id: u64) -> (r: String)
    ensures
        r@ == mention_nick_text(id),
{
    let mut m = "<@!".to_owned();
    append_u64(&mut m, id);
    m.append(">");
    proof {
        assert(m@ =~= mention_nick_text(id));
    }
    m
}

fn contains_id(ids: &Vec<u64>, id: u64) -> (r: bool)
    ensures
        r == ids@.contains(id),
{
    let n = ids.len();
    let mut i: usize = 0;
    while i < n
        invariant
            i <= n,
            n == ids@.len(),
            forall|j: int| 0 <= j < i ==> ids@[j] != id,
        decreases n - i,
    {
        if ids[i] == id {
            return true;
        }
        i += 1;
    }
    false
}

/// Turns one inbound message into at most one command invocation, exactly
/// as `dispatch_post` describes. A message authored by a bot account is
/// ignored with no observable output.
pub fn dispatch(cfg: &DispatchConfig, reg: &Registry, req: &DispatchRequest) -> (r:
    DispatchOutcome)
    requires
        reg.wf(),
    ensures
        dispatch_post(*cfg, *reg, *req, r),
        req.from_bot ==> r is Ignored,
{
    if req.from_bot {
        return DispatchOutcome::Ignored;
    }
    let mention = mention_of(cfg.bot_id);
    let mention_nick = mention_nick_of(cfg.bot_id);
    if req.content == mention || req.content == mention_nick {
        let mut reply = "Prefix is `".to_owned();
        reply.append(cfg.prefix.as_str());
        reply.append("`");
        proof {
            assert(reply@ =~= prefix_reply_text(cfg.prefix@));
        }
        return DispatchOutcome::PrefixNotice { reply };
    }
    if !has_prefix(req.content.as_str(), cfg.prefix.as_str()) {
        return DispatchOutcome::Ignored;
    }
    let content = req.content.as_str();
    let n = content.unicode_len();
    let plen = cfg.prefix.as_str().unicode_len();
    let stripped = content.substring_char(plen, n);
    proof {
        assert(stripped@ =~= req.content@.skip(cfg.prefix@.len() as int));
    }
    let k = find_space(stripped);
    let sl = stripped.unicode_len();
    let name = stripped.substring_char(0, k);
    let args = if k < sl {
        stripped.substring_char(k + 1, sl)
    } else {
        stripped.substring_char(sl, sl)
    };
    proof {
        if !(k < sl) {
            assert(args@ =~= Seq::<char>::empty());
        }
    }
    if name.unicode_len() == 0 {
        return DispatchOutcome::Ignored;
    }
    match reg.resolve(name) {
        None => DispatchOutcome::UnknownCommand { name: name.to_owned() },
        Some(i) => {
            proof {
                assert(forall|j: int|
                    0 <= j < reg.commands@.len() && (#[trigger] reg.commands@[j]).name@ == name@
                        ==> j == i);
            }
            let cmd = &reg.commands[i];
            if cmd.guild_only && req.guild_id.is_none() {
                DispatchOutcome::Rejected {
                    name: name.to_owned(),
                    error: DispatchError::RestrictionViolated { kind: RestrictionKind::GuildOnly },
                }
            } else if cmd.owner_only && !contains_id(&cfg.owners, req.author_id) {
                DispatchOutcome::Rejected {
                    name: name.to_owned(),
                    error: DispatchError::RestrictionViolated { kind: RestrictionKind::OwnerOnly },
                }
            } else {
                let given = count_tokens(args);
                if given < cmd.min_args {
                    DispatchOutcome::Rejected {
                        name: name.to_owned(),
                        error: DispatchError::NotEnoughArguments { min: cmd.min_args, given },
                    }
                } else {
                    DispatchOutcome::Invoke { name: name.to_owned(), args: args.to_owned() }
                }
            }
        },
    }
}

/// The text the error hook reports for one failure.
pub open spec fn error_report_text(command: Seq<char>, e: DispatchError) -> Seq<char> {
    match e {
        DispatchError::NotEnoughArguments { min, given } => "Not enough arguments in "@ + command
            + "!\nminimum required "@ + dec_string(min as nat) + "/supplied arguments "@
            + dec_string(given as nat),
        DispatchError::RestrictionViolated { kind } => "Unhandled error in "@ + command + (
        match kind {
            RestrictionKind::GuildOnly => ": for use in guilds only"@,
            RestrictionKind::OwnerOnly => ": for use by owners only"@,
        }),
        DispatchError::HandlerFailed { cause } => "Unhandled error in "@ + command + ": "@
            + cause@,
    }
}

/// The error-reporting hook's formatter: turns one dispatch failure into
/// the user-visible explanation sent to the originating channel.
pub fn format_error_report(command: &str, e: &DispatchError) -> (r: String)
    ensures
        r@ == error_report_text(command@, *e),
{
    match e {
        DispatchError::NotEnoughArguments { min, given } => {
            let mut t = "Not enough arguments in ".to_owned();
            t.append(command);
            t.append("!\nminimum required ");
            append_u64(&mut t, *min as u64);
            t.append("/supplied arguments ");
            append_u64(&mut t, *given as u64);
            proof {
                assert(t@ =~= error_report_text(command@, *e));
            }
            t
        },
        DispatchError::RestrictionViolated { kind } => {
            let mut t = "Unhandled error in ".to_owned();
            t.append(command);
            match kind {
                RestrictionKind::GuildOnly => t.append(": for use in guilds only"),
                RestrictionKind::OwnerOnly => t.append(": for use by owners only"),
            }
            proof {
                assert(t@ =~= error_report_text(command@, *e));
            }
            t
        },
        DispatchError::HandlerFailed { cause } => {
            let mut t = "Unhandled error in ".to_owned();
            t.append(command);
            t.append(": ");
            t.append(cause.as_str());
            proof {
                assert(t@ =~= error_report_text(command@, *e));
            }
            t
        },
    }
}

/// The report for a name that resolves to no command; recoverable and
/// user-visible, never fatal.
pub fn unknown_command_text(name: &str) -> (r: String)
    ensures
        r@ == "Unknown command: "@ + name@,
{
    let mut t = "Unknown command: ".to_owned();
    t.append(name);
    proof {
        assert(t@ =~= "Unknown command: "@ + name@);
    }
    t
}

/// Wraps a handler's failure for the error-reporting hook, so that it is
/// surfaced like every other per-invocation failure and never dropped.
pub fn wrap_handler_failure(cause: String) -> (e: DispatchError)
    ensures
        e matches DispatchError::HandlerFailed { cause: c } && c@ == cause@,
{
    DispatchError::HandlerFailed { cause }
}

} // verus!
