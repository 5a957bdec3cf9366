use vstd::prelude::*;
use crate::address::{AccountInfo, AccountMeta, Address};

verus! {

/// What every agent introduces itself with.
pub const AGENT_DESC: &'static str = "You are a helpful assistant.";

/// The state of an agent: the context its questions are numbered in.
#[derive(Clone, Copy, Debug)]
pub struct Agent {
    pub context: Address,
}

/// Why the agent refuses a call.
#[derive(Clone, Copy, Debug, PartialEq, Eq, Structural)]
pub enum AgentError {
    /// The callback did not come with the oracle's signature.
    InvalidAccountData,
    /// The context supplied is not the agent's.
    ContextAddressMismatch,
}

/// A question as the agent hands it to the oracle: the text, and where and
/// how the answer is to be called back.
#[derive(Clone, Debug)]
pub struct OracleQuery {
    pub text: String,
    pub callback_program_id: Address,
    pub callback_discriminator: [u8; 8],
    pub account_metas: Option<Vec<AccountMeta>>,
}

/// The accounts of `initialize`: the agent's state and the context it is to
/// use.
#[derive(Clone, Copy, Debug)]
pub struct Initialize {
    pub agent: Agent,
    pub llm_context: Address,
}

/// The accounts of `query`: the agent's state and the address of the context
/// supplied with the call.
#[derive(Clone, Copy, Debug)]
pub struct Query {
    pub agent: Agent,
    pub context_account: Address,
}

/// The accounts of `callback`: the account that stands for the oracle.
#[derive(Clone, Copy, Debug)]
pub struct Callback {
    pub identity: AccountInfo,
}

/// The agent program: 7JD7sixsC9bAbCttL1MxbrfNauXjVsAZciGzuicivons.
pub open spec fn agent_program() -> Address {
    Address {
        bytes: [
            93u8, 142u8, 178u8, 161u8, 82u8, 236u8, 241u8, 207u8, 235u8, 88u8, 220u8, 93u8, 4u8,
            220u8, 152u8, 0u8, 217u8, 12u8, 149u8, 211u8, 186u8, 46u8, 17u8, 72u8, 109u8, 7u8,
            62u8, 174u8, 234u8, 32u8, 218u8, 212u8,
        ],
    }
}

/// The agent program.
pub fn id() -> (r: Address)
    ensures
        r == agent_program(),
{
    Address {
        bytes: [
            93u8, 142u8, 178u8, 161u8, 82u8, 236u8, 241u8, 207u8, 235u8, 88u8, 220u8, 93u8, 4u8,
            220u8, 152u8, 0u8, 217u8, 12u8, 149u8, 211u8, 186u8, 46u8, 17u8, 72u8, 109u8, 7u8,
            62u8, 174u8, 234u8, 32u8, 218u8, 212u8,
        ],
    }
}

/// The routing tag of the agent's `callback` entry point.
pub open spec fn callback_tag() -> [u8; 8] {
    [245u8, 250u8, 10u8, 62u8, 218u8, 252u8, 239u8, 91u8]
}

/// The routing tag of the agent's `callback` entry point.
pub fn callback_discriminator() -> (r: [u8; 8])
    ensures
        r == callback_tag(),
{
    [245u8, 250u8, 10u8, 62u8, 218u8, 252u8, 239u8, 91u8]
}

/// Binds the agent to its context and returns the text it introduces itself
/// to the oracle with.
pub fn initialize(ctx: &mut Initialize) -> (r: String)
    ensures
        final(ctx).agent.context == old(ctx).llm_context,
        final(ctx).llm_context == old(ctx).llm_context,
        r@ == AGENT_DESC@,
{
    ctx.agent.context = ctx.llm_context;
    AGENT_DESC.to_owned()
}

/// Turns a question into what is handed to the oracle: the text unchanged,
/// to be answered through the agent's own `callback`, with no further
/// accounts. Refuses a context that is not the agent's.
pub fn query(ctx: &Query, text: String) -> (r: Result<OracleQuery, AgentError>)
    ensures
        match r {
            Ok(q) => {
                &&& ctx.context_account == ctx.agent.context
                &&& q.text@ == text@
                &&& q.callback_program_id == agent_program()
                &&& q.callback_discriminator == callback_tag()
                &&& q.account_metas is None
            },
            Err(e) => e == AgentError::ContextAddressMismatch && ctx.context_account
                != ctx.agent.context,
        },
{
    if ctx.context_account != ctx.agent.context {
        return Err(AgentError::ContextAddressMismatch);
    }
    Ok(
        OracleQuery {
            text,
            callback_program_id: id(),
            callback_discriminator: callback_discriminator(),
            account_metas: None,
        },
    )
}

/// Accepts an answer exactly when the oracle's account has signed the call.
pub fn callback(ctx: &Callback, response: &String) -> (r: Result<(), AgentError>)
    ensures
        r is Ok <==> ctx.identity.is_signer,
        r is Err ==> r == Err::<(), AgentError>(AgentError::InvalidAccountData),
{
    if !ctx.identity.is_signer {
        return Err(AgentError::InvalidAccountData);
    }
    Ok(())
}

} // verus!
