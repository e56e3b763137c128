use crate::address::Address;
use vstd::prelude::*;

verus! {

/// How an instruction uses one account.
#[derive(Clone, Copy, Debug, PartialEq, Eq)]
pub struct AccountMeta {
    pub pubkey: Address,
    /// Whether the account has to sign.
    pub is_signer: bool,
    /// Whether the instruction may change the account.
    pub is_writable: bool,
}

/// An instruction for a program of the ledger: the program, the accounts it
/// works on and the bytes it reads.
#[derive(Clone, Debug, PartialEq, Eq)]
pub struct Instruction {
    pub program_id: Address,
    pub accounts: Vec<AccountMeta>,
    pub data: Vec<u8>,
}

/// The `width` low bytes of `value`, lowest first.
pub open spec fn little_endian(value: nat, width: nat) -> Seq<u8>
    decreases width,
{
    if width == 0 {
        Seq::empty()
    } else {
        seq![(value % 256) as u8] + little_endian(value / 256, (width - 1) as nat)
    }
}

/// Whether `instruction` is the system program's transfer of `lamports` from
/// `from` to `to`: addressed to the system program, whose address is all
/// zeroes; on `from`, which signs and is changed, and `to`, which is
/// changed; with the number of the transfer instruction, 2, in four bytes
/// and the amount in eight, both lowest byte first.
pub open spec fn is_system_transfer(
    instruction: Instruction,
    from: Address,
    to: Address,
    lamports: u64,
) -> bool {
    &&& instruction.program_id.bytes@ == Seq::new(32, |i: int| 0u8)
    &&& instruction.accounts@ == seq![
        (AccountMeta { pubkey: from, is_signer: true, is_writable: true }),
        (AccountMeta { pubkey: to, is_signer: false, is_writable: true }),
    ]
    &&& instruction.data@ == little_endian(2, 4) + little_endian(lamports as nat, 8)
}

/// The system program's instruction that moves `lamports` from `from` to `to`,
/// as `system_instruction::transfer` of `anchor_lang::solana_program` builds
/// it. Believed of that function: the instruction it returns is the one that
/// `is_system_transfer` describes.
#[verifier::external_body]
pub(crate) fn system_transfer(from: &Address, to: &Address, lamports: u64) -> (instruction: Instruction)
    ensures
        is_system_transfer(instruction, *from, *to, lamports),
{
    let built = anchor_lang::solana_program::system_instruction::transfer(
        &anchor_lang::prelude::Pubkey::new_from_array(from.bytes),
        &anchor_lang::prelude::Pubkey::new_from_array(to.bytes),
        lamports,
    );
    let metas = built.accounts.iter();
    Instruction {
        program_id: Address { bytes: built.program_id.to_bytes() },
        accounts: metas.map(|m| AccountMeta { pubkey: Address { bytes: m.pubkey.to_bytes() }, is_signer: m.is_signer, is_writable: m.is_writable }).collect(),
        data: built.data,
    }
}

/// Who authorizes a transfer out of its source account.
#[derive(Clone, Copy, Debug, PartialEq, Eq)]
pub enum Authorization {
    /// The source signed the call itself.
    Source,
    /// The source is the holding account of the vault of `authority`, which
    /// signs for itself with the salt `bump`.
    Treasury { authority: Address, bump: u8 },
    /// The source is the shared pool, which signs for itself with the salt
    /// `bump`.
    ContractTreasury { bump: u8 },
}

/// The tag in the seeds of an owner's holding account: the text `treasury`.
pub open spec fn treasury_tag() -> Seq<u8> {
    seq![116u8, 114u8, 101u8, 97u8, 115u8, 117u8, 114u8, 121u8]
}

/// The tag in the seeds of the shared pool: the text `contract_treasury`.
pub open spec fn contract_treasury_tag() -> Seq<u8> {
    seq![99u8, 111u8, 110u8, 116u8, 114u8, 97u8, 99u8, 116u8, 95u8] + treasury_tag()
}

impl Authorization {
    /// The seeds from which the ledger derives the signing account's address,
    /// in order; none where the source signed itself.
    pub open spec fn seeds(self) -> Seq<Seq<u8>> {
        match self {
            Authorization::Source => Seq::empty(),
            Authorization::Treasury { authority, bump } => seq![
                treasury_tag(),
                authority.bytes@,
                seq![bump],
            ],
            Authorization::ContractTreasury { bump } => seq![contract_treasury_tag(), seq![bump]],
        }
    }

    /// The seeds to sign with, as bytes.
    pub fn signer_seeds(&self) -> (seeds: Vec<Vec<u8>>)
        ensures
            seeds.deep_view() == self.seeds(),
    {
        let mut seeds: Vec<Vec<u8>> = Vec::new();
        match self {
            Authorization::Source => {},
            Authorization::Treasury { authority, bump } => {
                let tag: Vec<u8> = vec![116u8, 114u8, 101u8, 97u8, 115u8, 117u8, 114u8, 121u8];
                assert(tag@ =~= treasury_tag());
                seeds.push(tag);
                seeds.push(authority.to_vec());
                seeds.push(vec![*bump]);
            },
            Authorization::ContractTreasury { bump } => {
                let tag: Vec<u8> = vec![
                    99u8, 111u8, 110u8, 116u8, 114u8, 97u8, 99u8, 116u8, 95u8,
                    116u8, 114u8, 101u8, 97u8, 115u8, 117u8, 114u8, 121u8,
                ];
                assert(tag@ =~= contract_treasury_tag());
                seeds.push(tag);
                seeds.push(vec![*bump]);
            },
        }
        assert(seeds.deep_view() =~~= self.seeds());
        seeds
    }
}

/// An order to move value from one account to another.
#[derive(Clone, Debug, PartialEq, Eq)]
pub struct Transfer {
    /// The account that pays.
    pub from: Address,
    /// The account that receives.
    pub to: Address,
    /// The amount to move.
    pub lamports: u64,
    /// Who authorizes the payment.
    pub authorization: Authorization,
    /// The instruction that carries the order out.
    pub instruction: Instruction,
}

/// What a transfer moves, and on whose authority.
pub struct Movement {
    pub from: Address,
    pub to: Address,
    pub lamports: nat,
    pub authorization: Authorization,
}

impl View for Transfer {
    type V = Movement;

    open spec fn view(&self) -> Movement {
        Movement {
            from: self.from,
            to: self.to,
            lamports: self.lamports as nat,
            authorization: self.authorization,
        }
    }
}

impl Movement {
    /// The balance of the account `key` once the movement has been carried
    /// out, where it was `before`.
    pub open spec fn balance_after(self, key: Address, before: int) -> int {
        before - (if self.from == key {
            self.lamports as int
        } else {
            0
        }) + (if self.to == key {
            self.lamports as int
        } else {
            0
        })
    }
}

impl Transfer {
    /// Whether the instruction of the order is the one that carries it out.
    pub open spec fn well_formed(self) -> bool {
        is_system_transfer(self.instruction, self.from, self.to, self.lamports)
    }

    /// The order to move `lamports` from `from` to `to` on the given authority.
    pub fn new(from: Address, to: Address, lamports: u64, authorization: Authorization) -> (order: Transfer)
        ensures
            order.well_formed(),
            order.from == from,
            order.to == to,
            order.lamports == lamports,
            order.authorization == authorization,
    {
        let instruction = system_transfer(&from, &to, lamports);
        Transfer { from, to, lamports, authorization, instruction }
    }
}

} // verus!
