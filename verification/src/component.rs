use vstd::prelude::*;
use crate::address::Address;

verus! {

/// Whose turn it is in a conversation.
#[derive(Clone, Copy, Debug, PartialEq, Eq, Structural)]
pub enum ChatState {
    UserTurn,
    ModelTurn,
}

/// The turn counter of a conversation.
#[derive(Clone, Copy, Debug)]
pub struct Chat {
    pub msg: u64,
    pub state: ChatState,
    pub owner: Option<Address>,
}

impl Default for Chat {
    fn default() -> (r: Chat)
        ensures
            r.msg == 0,
            r.state == ChatState::UserTurn,
            r.owner is None,
    {
        Chat { msg: 0, state: ChatState::UserTurn, owner: None }
    }
}

/// What one paid turn works on: the conversation, the account that pays and
/// the bump seed that completes its seeds, and the account that is paid.
#[derive(Clone, Copy, Debug)]
pub struct Components {
    pub chat: Chat,
    pub from_pda: Address,
    pub from_bump: u8,
    pub send_to: Address,
}

/// The arguments of one paid turn.
#[derive(Clone, Copy, Debug)]
pub struct Args {
    pub amount: u64,
}

/// A payment that the ledger is asked to make, with the seeds that authorize
/// the paying account.
#[derive(Clone, Debug)]
pub struct Transfer {
    pub from: Address,
    pub to: Address,
    pub lamports: u64,
    pub signer_seeds: Vec<Vec<u8>>,
}

/// The namespace tag of the paying account: the bytes of "test-pda".
pub open spec fn test_pda_tag() -> Seq<u8> {
    seq![116u8, 101u8, 115u8, 116u8, 45u8, 112u8, 100u8, 97u8]
}

/// The namespace tag of the paying account.
pub fn test_pda_seed() -> (r: Vec<u8>)
    ensures
        r@ == test_pda_tag(),
{
    vec![116u8, 101u8, 115u8, 116u8, 45u8, 112u8, 100u8, 97u8]
}

/// The other side's turn.
pub open spec fn other_turn(state: ChatState) -> ChatState {
    match state {
        ChatState::UserTurn => ChatState::ModelTurn,
        ChatState::ModelTurn => ChatState::UserTurn,
    }
}

/// Takes one paid turn: counts the message, passes the turn to the other
/// side, and returns the payment to be made for it.
pub fn execute(ctx: &mut Components, args: Args) -> (r: Transfer)
    requires
        old(ctx).chat.msg < u64::MAX,
    ensures
        final(ctx).chat.msg == old(ctx).chat.msg + 1,
        final(ctx).chat.state == other_turn(old(ctx).chat.state),
        final(ctx).chat.owner == old(ctx).chat.owner,
        final(ctx).from_pda == old(ctx).from_pda,
        final(ctx).from_bump == old(ctx).from_bump,
        final(ctx).send_to == old(ctx).send_to,
        r.from == old(ctx).from_pda,
        r.to == old(ctx).send_to,
        r.lamports == args.amount,
        r.signer_seeds@.len() == 2,
        r.signer_seeds@[0]@ == test_pda_tag(),
        r.signer_seeds@[1]@ == seq![old(ctx).from_bump],
{
    let bump_seed: Vec<u8> = vec![ctx.from_bump];
    assert(bump_seed@ =~= seq![ctx.from_bump]);
    let mut signer_seeds: Vec<Vec<u8>> = Vec::new();
    signer_seeds.push(test_pda_seed());
    signer_seeds.push(bump_seed);
    let payment = Transfer {
        from: ctx.from_pda,
        to: ctx.send_to,
        lamports: args.amount,
        signer_seeds,
    };
    ctx.chat.msg = ctx.chat.msg + 1;
    ctx.chat.state = match ctx.chat.state {
        ChatState::ModelTurn => ChatState::UserTurn,
        ChatState::UserTurn => ChatState::ModelTurn,
    };
    payment
}

} // verus!
