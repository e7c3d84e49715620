//! What a move reads from the host, and what it asks the host to do.

use vstd::prelude::*;
use crate::battlemogs::asset::{BattleMogsAsset, BattleMogsId};
use crate::battlemogs::config::Balance;
use crate::battlemogs::error::{
    BattleMogsError, TransitionError, ASSET_COULD_NOT_RECEIVE_FUNDS, ASSET_COULD_NOT_WITHDRAW_FUNDS,
    ASSET_IS_NOT_ACHIEVEMENT_TABLE, ASSET_IS_NOT_MOGWAI, ASSET_NOT_FOUND, MOGWAI_LIMIT_REACHED,
    PLAYER_ALREADY_HAS_ACHIEVEMENT_TABLE,
};

verus! {

/// The height of a block.
pub type BlockNumber = u64;

/// An asset as the moves handle it.
pub type Asset = BattleMogsAsset<BlockNumber>;

#[derive(Copy, Clone, Debug, PartialEq, Eq, Structural)]
pub struct BattleMogsTransitionConfig {
    pub max_mogwais: u16,
    pub target_egg_hatcher: u16,
    pub target_sacrificer: u16,
    pub target_morpheus: u16,
    pub target_legend_breeder: u16,
    pub target_promiscuous: u16,
}

pub const DEFAULT_MAX_MOGWAIS: u16 = 10;

pub const DEFAULT_TARGET: u16 = 100;

impl Default for BattleMogsTransitionConfig {
    fn default() -> (config: Self)
        ensures
            config == (BattleMogsTransitionConfig {
                max_mogwais: 10,
                target_egg_hatcher: 100,
                target_sacrificer: 100,
                target_morpheus: 100,
                target_legend_breeder: 100,
                target_promiscuous: 100,
            }),
    {
        Self {
            max_mogwais: DEFAULT_MAX_MOGWAIS,
            target_egg_hatcher: DEFAULT_TARGET,
            target_sacrificer: DEFAULT_TARGET,
            target_morpheus: DEFAULT_TARGET,
            target_legend_breeder: DEFAULT_TARGET,
            target_promiscuous: DEFAULT_TARGET,
        }
    }
}

/// What the host keeps under one id.
#[derive(Copy, Clone, Debug, PartialEq, Eq)]
pub struct AssetRecord {
    pub id: BattleMogsId,
    /// Whether the asset belongs to the account that makes the move.
    pub owned: bool,
    /// The funds that the asset holds, in the fund that the move is paid in.
    pub funds: Balance,
    pub asset: Asset,
}

/// What the host knows at the time of a move: the height, the rules, the
/// assets of the account and the other assets that the move names.
#[derive(Clone, Debug, PartialEq, Eq)]
pub struct HostSnapshot {
    pub block_number: BlockNumber,
    pub config: BattleMogsTransitionConfig,
    pub records: Vec<AssetRecord>,
}

/// The hashes that the host draws for a move, one for each subject.
#[derive(Copy, Clone, Debug, PartialEq, Eq)]
pub struct RandomDraws {
    pub mogwai_id: [u8; 32],
    pub create_mogwai: [u8; 32],
    pub extend_mogwai: [u8; 32],
    pub breed_mogwai: [u8; 32],
    pub breed_next_gen: [u8; 32],
    pub mogwai_hatch: [u8; 32],
    pub mogwai_morph: [u8; 32],
}

/// What the host is asked to draw a hash for.
#[derive(Copy, Clone, Debug, PartialEq, Eq, Structural)]
pub enum RandomSubject {
    MogwaiId,
    CreateMogwai,
    ExtendMogwai,
    BreedMogwai,
    BreedNextGen,
    MogwaiHatch,
    MogwaiMorph,
}

impl RandomSubject {
    /// The name under which the host draws the hash; its bytes are the subject.
    pub fn name(&self) -> (name: &'static str)
        ensures
            name@ == match *self {
                RandomSubject::MogwaiId => "mogwai_id"@,
                RandomSubject::CreateMogwai => "create_mogwai"@,
                RandomSubject::ExtendMogwai => "extend_mogwai"@,
                RandomSubject::BreedMogwai => "breed_mogwai"@,
                RandomSubject::BreedNextGen => "breed_next_gen"@,
                RandomSubject::MogwaiHatch => "mogwai_hatch"@,
                RandomSubject::MogwaiMorph => "mogwai_morph"@,
            },
    {
        match self {
            RandomSubject::MogwaiId => "mogwai_id",
            RandomSubject::CreateMogwai => "create_mogwai",
            RandomSubject::ExtendMogwai => "extend_mogwai",
            RandomSubject::BreedMogwai => "breed_mogwai",
            RandomSubject::BreedNextGen => "breed_next_gen",
            RandomSubject::MogwaiHatch => "mogwai_hatch",
            RandomSubject::MogwaiMorph => "mogwai_morph",
        }
    }
}

/// Whether `hash` is all zeros: no hash has been drawn.
pub open spec fn undrawn(hash: [u8; 32]) -> bool {
    forall|i: int| 0 <= i < 32 ==> hash@[i] == 0
}

impl RandomDraws {
    /// The hash that was drawn for `subject`.
    pub open spec fn drawn_for(self, subject: RandomSubject) -> [u8; 32] {
        match subject {
            RandomSubject::MogwaiId => self.mogwai_id,
            RandomSubject::CreateMogwai => self.create_mogwai,
            RandomSubject::ExtendMogwai => self.extend_mogwai,
            RandomSubject::BreedMogwai => self.breed_mogwai,
            RandomSubject::BreedNextGen => self.breed_next_gen,
            RandomSubject::MogwaiHatch => self.mogwai_hatch,
            RandomSubject::MogwaiMorph => self.mogwai_morph,
        }
    }

    /// The draws of a move for which the host has drawn nothing yet.
    pub fn empty() -> (draws: RandomDraws)
        ensures
            undrawn(draws.mogwai_id),
            undrawn(draws.create_mogwai),
            undrawn(draws.extend_mogwai),
            undrawn(draws.breed_mogwai),
            undrawn(draws.breed_next_gen),
            undrawn(draws.mogwai_hatch),
            undrawn(draws.mogwai_morph),
    {
        RandomDraws {
            mogwai_id: [0u8; 32],
            create_mogwai: [0u8; 32],
            extend_mogwai: [0u8; 32],
            breed_mogwai: [0u8; 32],
            breed_next_gen: [0u8; 32],
            mogwai_hatch: [0u8; 32],
            mogwai_morph: [0u8; 32],
        }
    }

    /// The draws with `hash` for `subject`.
    pub fn with(self, subject: RandomSubject, hash: [u8; 32]) -> (draws: RandomDraws)
        ensures
            draws == match subject {
                RandomSubject::MogwaiId => RandomDraws { mogwai_id: hash, ..self },
                RandomSubject::CreateMogwai => RandomDraws { create_mogwai: hash, ..self },
                RandomSubject::ExtendMogwai => RandomDraws { extend_mogwai: hash, ..self },
                RandomSubject::BreedMogwai => RandomDraws { breed_mogwai: hash, ..self },
                RandomSubject::BreedNextGen => RandomDraws { breed_next_gen: hash, ..self },
                RandomSubject::MogwaiHatch => RandomDraws { mogwai_hatch: hash, ..self },
                RandomSubject::MogwaiMorph => RandomDraws { mogwai_morph: hash, ..self },
            },
    {
        let mut draws = self;
        match subject {
            RandomSubject::MogwaiId => {
                draws.mogwai_id = hash;
            },
            RandomSubject::CreateMogwai => {
                draws.create_mogwai = hash;
            },
            RandomSubject::ExtendMogwai => {
                draws.extend_mogwai = hash;
            },
            RandomSubject::BreedMogwai => {
                draws.breed_mogwai = hash;
            },
            RandomSubject::BreedNextGen => {
                draws.breed_next_gen = hash;
            },
            RandomSubject::MogwaiHatch => {
                draws.mogwai_hatch = hash;
            },
            RandomSubject::MogwaiMorph => {
                draws.mogwai_morph = hash;
            },
        }
        draws
    }
}

/// What a move hands to the host to write.
#[derive(Copy, Clone, Debug, PartialEq, Eq)]
pub enum TransitionOutput<AssetId, Asset> {
    Minted(Asset),
    Mutated(AssetId, Asset),
    Consumed(AssetId),
}

/// The outputs of a move, in order.
pub type BattleMogsTransitionOutput<BlockNumber> = Vec<TransitionOutput<BattleMogsId, BattleMogsAsset<BlockNumber>>>;

/// Funds that the host has to move between the account and an asset.
#[derive(Copy, Clone, Debug, PartialEq, Eq, Structural)]
pub enum FundMove {
    /// From the account to the asset.
    Deposit { asset: BattleMogsId, amount: Balance },
    /// From the asset to the account.
    Withdraw { asset: BattleMogsId, amount: Balance },
}

impl FundMove {
    /// The error of a move whose funds the host could not move.
    pub fn failure(&self) -> (error: TransitionError)
        ensures
            error == match *self {
                FundMove::Deposit { .. } => TransitionError::Transition { code: ASSET_COULD_NOT_RECEIVE_FUNDS },
                FundMove::Withdraw { .. } => TransitionError::Transition { code: ASSET_COULD_NOT_WITHDRAW_FUNDS },
            },
    {
        match self {
            FundMove::Deposit { .. } => BattleMogsError::from(ASSET_COULD_NOT_RECEIVE_FUNDS),
            FundMove::Withdraw { .. } => BattleMogsError::from(ASSET_COULD_NOT_WITHDRAW_FUNDS),
        }
    }
}

/// What a move comes to: the funds to move, in this order, and then the
/// outputs to write. Where the host cannot move the funds, nothing is written.
#[derive(Clone, Debug, PartialEq, Eq)]
pub struct TransitionPlan {
    pub moves: Vec<FundMove>,
    pub outputs: BattleMogsTransitionOutput<BlockNumber>,
}

/// The first record under `id` from place `from` on.
pub open spec fn record_from(records: Seq<AssetRecord>, id: BattleMogsId, from: int) -> Option<AssetRecord>
    decreases records.len() - from,
{
    if from < 0 || from >= records.len() {
        None
    } else if records[from].id == id {
        Some(records[from])
    } else {
        record_from(records, id, from + 1)
    }
}

/// The record that the host keeps under `id`.
pub open spec fn record_of(records: Seq<AssetRecord>, id: BattleMogsId) -> Option<AssetRecord> {
    record_from(records, id, 0)
}

/// The mogwais of the account among the first `n` records.
pub open spec fn owned_mogwais(records: Seq<AssetRecord>, n: int) -> nat
    decreases n,
{
    if n <= 0 {
        0
    } else {
        owned_mogwais(records, n - 1) + (if records[n - 1].owned && records[n - 1].asset.variant is Mogwai {
            1nat
        } else {
            0nat
        })
    }
}

/// Whether the account has a table of achievements.
pub open spec fn owns_table(records: Seq<AssetRecord>) -> bool {
    exists|i: int|
        0 <= i < records.len() && (#[trigger] records[i]).owned && records[i].asset.variant is AchievementTable
}

/// The asset under `id`, or the reason why a move cannot use it.
pub open spec fn asset_found(records: Seq<AssetRecord>, id: BattleMogsId) -> Result<Asset, TransitionError> {
    match record_of(records, id) {
        Some(record) => Ok(record.asset),
        None => Err(TransitionError::Transition { code: ASSET_NOT_FOUND }),
    }
}

/// The mogwai under `id`, or the reason why a move cannot use it.
pub open spec fn mogwai_found(records: Seq<AssetRecord>, id: BattleMogsId) -> Result<Asset, TransitionError> {
    match asset_found(records, id) {
        Err(error) => Err(error),
        Ok(asset) => if asset.variant is Mogwai {
            Ok(asset)
        } else {
            Err(TransitionError::Transition { code: ASSET_IS_NOT_MOGWAI })
        },
    }
}

/// Whether the account owns the asset under `id`.
pub open spec fn is_owned(records: Seq<AssetRecord>, id: BattleMogsId) -> bool {
    record_of(records, id) matches Some(record) && record.owned
}

/// The mogwai of the account under `id`, or the reason why a move cannot use it.
pub open spec fn owned_mogwai_found(records: Seq<AssetRecord>, id: BattleMogsId) -> Result<Asset, TransitionError> {
    if !is_owned(records, id) {
        Err(TransitionError::AssetOwnership)
    } else {
        mogwai_found(records, id)
    }
}

/// The table of the account under `id`, or the reason why a move cannot use it.
pub open spec fn owned_table_found(records: Seq<AssetRecord>, id: BattleMogsId) -> Result<Asset, TransitionError> {
    if !is_owned(records, id) {
        Err(TransitionError::AssetOwnership)
    } else {
        match asset_found(records, id) {
            Err(error) => Err(error),
            Ok(asset) => if asset.variant is AchievementTable {
                Ok(asset)
            } else {
                Err(TransitionError::Transition { code: ASSET_IS_NOT_ACHIEVEMENT_TABLE })
            },
        }
    }
}

/// The funds that the asset under `id` holds; nothing where the host keeps no such asset.
pub open spec fn funds_of(records: Seq<AssetRecord>, id: BattleMogsId) -> Balance {
    match record_of(records, id) {
        Some(record) => record.funds,
        None => 0,
    }
}

/// The number that `bytes` spell with the most significant byte first.
pub open spec fn be_value(bytes: Seq<u8>) -> nat
    decreases bytes.len(),
{
    if bytes.len() == 0 {
        0
    } else {
        be_value(bytes.drop_last()) * 256 + bytes.last() as nat
    }
}

/// The first eight bytes of `hash` as a number, most significant byte first.
pub open spec fn hash_prefix(hash: [u8; 32]) -> nat {
    be_value(hash@.subrange(0, 8))
}

/// The id of a new asset: the first eight bytes of `hash` as a number,
/// most significant byte first, and `nonce` on top, capped at the largest id.
pub open spec fn minted_id(hash: [u8; 32], nonce: u64) -> BattleMogsId {
    if hash_prefix(hash) + nonce > u64::MAX {
        u64::MAX
    } else {
        (hash_prefix(hash) + nonce) as u64
    }
}

/// One more than the largest number that `n` bytes spell.
pub open spec fn byte_limit(n: nat) -> nat
    decreases n,
{
    if n == 0 {
        1
    } else {
        256 * byte_limit((n - 1) as nat)
    }
}

impl HostSnapshot {
    /// The record that the host keeps under `id`.
    pub fn find(&self, id: &BattleMogsId) -> (found: Option<AssetRecord>)
        ensures
            found == record_of(self.records@, *id),
    {
        let mut i: usize = 0;
        while i < self.records.len()
            invariant
                i <= self.records.len(),
                record_from(self.records@, *id, i as int) == record_of(self.records@, *id),
            decreases self.records.len() - i,
        {
            if self.records[i].id == *id {
                return Some(self.records[i]);
            }
            i += 1;
        }
        None
    }

    /// The number of mogwais that the account owns.
    pub fn count_mogwais(&self) -> (count: usize)
        ensures
            count == owned_mogwais(self.records@, self.records@.len() as int),
    {
        let mut count: usize = 0;
        let mut i: usize = 0;
        while i < self.records.len()
            invariant
                i <= self.records.len(),
                count == owned_mogwais(self.records@, i as int),
                count <= i,
            decreases self.records.len() - i,
        {
            if self.records[i].owned && self.records[i].asset.is_mogwai() {
                count += 1;
            }
            i += 1;
        }
        count
    }

    /// Tells whether the account has a table of achievements.
    pub fn has_achievement_table(&self) -> (found: bool)
        ensures
            found == owns_table(self.records@),
    {
        let mut i: usize = 0;
        while i < self.records.len()
            invariant
                i <= self.records.len(),
                forall|k: int|
                    0 <= k < i ==> !((#[trigger] self.records@[k]).owned
                        && self.records@[k].asset.variant is AchievementTable),
            decreases self.records.len() - i,
        {
            if self.records[i].owned && self.records[i].asset.is_achievement() {
                return true;
            }
            i += 1;
        }
        false
    }

    pub fn get_asset(&self, id: &BattleMogsId) -> (result: Result<Asset, TransitionError>)
        ensures
            result == asset_found(self.records@, *id),
    {
        match self.find(id) {
            Some(record) => Ok(record.asset),
            None => Err(BattleMogsError::from(ASSET_NOT_FOUND)),
        }
    }

    pub fn ensure_ownership(&self, id: &BattleMogsId) -> (result: Result<(), TransitionError>)
        ensures
            result == (if is_owned(self.records@, *id) {
                Ok::<(), TransitionError>(())
            } else {
                Err::<(), TransitionError>(TransitionError::AssetOwnership)
            }),
    {
        match self.find(id) {
            Some(record) => if record.owned {
                Ok(())
            } else {
                Err(TransitionError::AssetOwnership)
            },
            None => Err(TransitionError::AssetOwnership),
        }
    }

    pub fn inspect_asset_funds(&self, id: &BattleMogsId) -> (funds: Balance)
        ensures
            funds == funds_of(self.records@, *id),
    {
        match self.find(id) {
            Some(record) => record.funds,
            None => 0,
        }
    }

    pub fn ensure_not_max_mogwais(&self) -> (result: Result<(), TransitionError>)
        ensures
            result == (if owned_mogwais(self.records@, self.records@.len() as int) <= self.config.max_mogwais {
                Ok::<(), TransitionError>(())
            } else {
                Err::<(), TransitionError>(TransitionError::Transition { code: MOGWAI_LIMIT_REACHED })
            }),
    {
        let mogwai_count = self.count_mogwais();
        if mogwai_count <= self.config.max_mogwais as usize {
            Ok(())
        } else {
            Err(BattleMogsError::from(MOGWAI_LIMIT_REACHED))
        }
    }

    pub fn ensure_has_not_achievement_table(&self) -> (result: Result<(), TransitionError>)
        ensures
            result == (if !owns_table(self.records@) {
                Ok::<(), TransitionError>(())
            } else {
                Err::<(), TransitionError>(
                    TransitionError::Transition { code: PLAYER_ALREADY_HAS_ACHIEVEMENT_TABLE },
                )
            }),
    {
        if self.has_achievement_table() {
            Err(BattleMogsError::from(PLAYER_ALREADY_HAS_ACHIEVEMENT_TABLE))
        } else {
            Ok(())
        }
    }

    pub fn get_mogwai(&self, mogwai_id: &BattleMogsId) -> (result: Result<Asset, TransitionError>)
        ensures
            result == mogwai_found(self.records@, *mogwai_id),
    {
        let asset = self.get_asset(mogwai_id)?;
        ensure_mogwai(&asset)?;
        Ok(asset)
    }

    pub fn get_owned_mogwai(&self, mogwai_id: &BattleMogsId) -> (result: Result<Asset, TransitionError>)
        ensures
            result == owned_mogwai_found(self.records@, *mogwai_id),
    {
        self.ensure_ownership(mogwai_id)?;
        let asset = self.get_asset(mogwai_id)?;
        ensure_mogwai(&asset)?;
        Ok(asset)
    }

    pub fn get_owned_achievement_table(&self, table_id: &BattleMogsId) -> (result: Result<Asset, TransitionError>)
        ensures
            result == owned_table_found(self.records@, *table_id),
    {
        self.ensure_ownership(table_id)?;
        let asset = self.get_asset(table_id)?;
        ensure_achievement_table(&asset)?;
        Ok(asset)
    }
}

pub fn ensure_mogwai(asset: &Asset) -> (result: Result<(), TransitionError>)
    ensures
        result == (if asset.variant is Mogwai {
            Ok::<(), TransitionError>(())
        } else {
            Err::<(), TransitionError>(TransitionError::Transition { code: ASSET_IS_NOT_MOGWAI })
        }),
{
    if asset.is_mogwai() {
        Ok(())
    } else {
        Err(BattleMogsError::from(ASSET_IS_NOT_MOGWAI))
    }
}

pub fn ensure_achievement_table(asset: &Asset) -> (result: Result<(), TransitionError>)
    ensures
        result == (if asset.variant is AchievementTable {
            Ok::<(), TransitionError>(())
        } else {
            Err::<(), TransitionError>(TransitionError::Transition { code: ASSET_IS_NOT_ACHIEVEMENT_TABLE })
        }),
{
    if asset.is_achievement() {
        Ok(())
    } else {
        Err(BattleMogsError::from(ASSET_IS_NOT_ACHIEVEMENT_TABLE))
    }
}

/// The first eight bytes of `hash` as a number, most significant byte first.
pub fn prefix_of(hash: &[u8; 32]) -> (prefix: u64)
    ensures
        prefix == hash_prefix(*hash),
{
    let mut prefix: u64 = 0;
    let mut i: usize = 0;
    while i < 8
        invariant
            i <= 8,
            prefix == be_value(hash@.subrange(0, i as int)),
            prefix < byte_limit(i as nat),
        decreases 8 - i,
    {
        proof {
            reveal_with_fuel(byte_limit, 9);
            assert(hash@.subrange(0, i + 1).drop_last() =~= hash@.subrange(0, i as int));
        }
        prefix = prefix * 256 + hash[i] as u64;
        i += 1;
    }
    prefix
}

/// The id of a new asset, from the hash that the host drew for it.
pub fn new_asset_id(hash: &[u8; 32], nonce: u64) -> (id: BattleMogsId)
    ensures
        id == minted_id(*hash, nonce),
{
    prefix_of(hash).saturating_add(nonce)
}

/// The fund that a move is paid in: the one that was named, or else the native one.
pub fn get_payment_id<FundId>(payment_asset: Option<FundId>, native: FundId) -> (fund: FundId)
    ensures
        fund == match payment_asset {
            Some(payment) => payment,
            None => native,
        },
{
    if let Some(payment) = payment_asset {
        payment
    } else {
        native
    }
}

} // verus!
