use crate::address::Address;
use crate::error::PocketError;
use vstd::prelude::*;

verus! {

/// One whitelisted settlement asset and the custody account that goes with it.
#[derive(Clone, Copy, Debug, PartialEq, Eq)]
pub struct MintInfo {
    /// Whether the asset may be used at present.
    pub is_enabled: bool,
    /// The asset.
    pub mint_account: Address,
    /// The custody account held for the asset.
    pub token_account: Address,
    /// Bump of the custody account's derived address.
    pub bump: u8,
}

impl Default for MintInfo {
    fn default() -> (r: MintInfo)
        ensures
            !r.is_enabled,
            r.mint_account.is_unset(),
            r.token_account.is_unset(),
            r.bump == 0,
    {
        MintInfo {
            is_enabled: false,
            mint_account: Address::default(),
            token_account: Address::default(),
            bump: 0,
        }
    }
}

/// The deployment's registry: who administers it, who may trigger cycles, and which
/// settlement assets are whitelisted.
#[derive(Debug, PartialEq, Eq)]
pub struct PocketPlatformRegistry {
    /// The administrator.
    pub owner: Address,
    /// Set once by initialization.
    pub was_initialized: bool,
    /// Bump of the registry's derived address.
    pub bump: u8,
    /// The whitelist of settlement assets.
    pub allowed_mint_accounts: Vec<MintInfo>,
    /// Who may trigger cycles.
    pub operators: Vec<Address>,
}

/// The mathematical content of a [`PocketPlatformRegistry`].
pub struct PocketPlatformRegistryView {
    pub owner: Address,
    pub was_initialized: bool,
    pub bump: u8,
    pub allowed_mint_accounts: Seq<MintInfo>,
    pub operators: Seq<Address>,
}

impl View for PocketPlatformRegistry {
    type V = PocketPlatformRegistryView;

    open spec fn view(&self) -> PocketPlatformRegistryView {
        PocketPlatformRegistryView {
            owner: self.owner,
            was_initialized: self.was_initialized,
            bump: self.bump,
            allowed_mint_accounts: self.allowed_mint_accounts@,
            operators: self.operators@,
        }
    }
}

impl PocketPlatformRegistryView {
    /// Whether `key` is one of the operators.
    pub open spec fn has_operator(self, key: Address) -> bool {
        self.operators.contains(key)
    }

    /// Whether the whitelist has an entry for `mint`.
    pub open spec fn lists_mint(self, mint: Address) -> bool {
        exists|i: int|
            0 <= i < self.allowed_mint_accounts.len()
                && (#[trigger] self.allowed_mint_accounts[i]).mint_account == mint
    }

    /// Whether the whitelist has an enabled entry for `mint`.
    pub open spec fn enables_mint(self, mint: Address) -> bool {
        exists|i: int|
            0 <= i < self.allowed_mint_accounts.len() && (
            #[trigger] self.allowed_mint_accounts[i]).mint_account == mint
                && self.allowed_mint_accounts[i].is_enabled
    }

    /// Whether position `i` holds the first whitelist entry for `mint`.
    pub open spec fn first_entry_at(self, mint: Address, i: int) -> bool {
        &&& 0 <= i < self.allowed_mint_accounts.len()
        &&& self.allowed_mint_accounts[i].mint_account == mint
        &&& forall|j: int|
            0 <= j < i ==> (#[trigger] self.allowed_mint_accounts[j]).mint_account != mint
    }

    /// No asset appears twice in the whitelist.
    pub open spec fn wf(self) -> bool {
        forall|i: int, j: int|
            0 <= i < j < self.allowed_mint_accounts.len() ==> (
            #[trigger] self.allowed_mint_accounts[i]).mint_account != (
            #[trigger] self.allowed_mint_accounts[j]).mint_account
    }
}

impl Default for PocketPlatformRegistry {
    /// A registry that has not been initialized: nobody owns it, and both lists are empty.
    fn default() -> (r: PocketPlatformRegistry)
        ensures
            r@.owner.is_unset(),
            !r@.was_initialized,
            r@.bump == 0,
            r@.allowed_mint_accounts.len() == 0,
            r@.operators.len() == 0,
            r@.wf(),
    {
        PocketPlatformRegistry {
            owner: Address::default(),
            was_initialized: false,
            bump: 0,
            allowed_mint_accounts: Vec::new(),
            operators: Vec::new(),
        }
    }
}

impl PocketPlatformRegistry {
    /// Marks the registry as initialized. This succeeds once: a second call is refused
    /// and changes nothing.
    pub fn handle_post_initialized(&mut self) -> (r: Result<(), PocketError>)
        ensures
            old(self)@.was_initialized ==> r == Err::<(), PocketError>(
                PocketError::AlreadyInitialized,
            ) && final(self)@ == old(self)@,
            !old(self)@.was_initialized ==> r is Ok && final(self)@ == (PocketPlatformRegistryView {
                was_initialized: true,
                ..old(self)@
            }),
    {
        if self.was_initialized == false {
            self.was_initialized = true;
            return Ok(());
        }
        Err(PocketError::AlreadyInitialized)
    }

    /// Whether the whitelist has an entry for `mint_account`.
    pub fn is_mint_account_existed(&self, mint_account: Address) -> (r: bool)
        ensures
            r == self@.lists_mint(mint_account),
    {
        let mut i: usize = 0;
        while i < self.allowed_mint_accounts.len()
            invariant
                i <= self.allowed_mint_accounts.len(),
                forall|j: int|
                    0 <= j < i ==> (#[trigger] self.allowed_mint_accounts@[j]).mint_account
                        != mint_account,
            decreases self.allowed_mint_accounts.len() - i,
        {
            if self.allowed_mint_accounts[i].mint_account == mint_account {
                assert(self@.allowed_mint_accounts[i as int].mint_account == mint_account);
                return true;
            }
            i += 1;
        }
        false
    }

    /// Whether the whitelist has an enabled entry for `mint_account`.
    pub fn is_mint_account_enabled(&self, mint_account: Address) -> (r: bool)
        ensures
            r == self@.enables_mint(mint_account),
    {
        let mut i: usize = 0;
        while i < self.allowed_mint_accounts.len()
            invariant
                i <= self.allowed_mint_accounts.len(),
                forall|j: int|
                    0 <= j < i ==> !((#[trigger] self.allowed_mint_accounts@[j]).mint_account
                        == mint_account && self.allowed_mint_accounts@[j].is_enabled),
            decreases self.allowed_mint_accounts.len() - i,
        {
            if self.allowed_mint_accounts[i].mint_account == mint_account
                && self.allowed_mint_accounts[i].is_enabled {
                assert(self@.allowed_mint_accounts[i as int].mint_account == mint_account);
                return true;
            }
            i += 1;
        }
        false
    }

    /// The first whitelist entry for `mint_account`. The caller makes sure there is one.
    pub fn get_mint_info(&self, mint_account: Address) -> (r: &MintInfo)
        requires
            self@.lists_mint(mint_account),
        ensures
            r.mint_account == mint_account,
            exists|i: int|
                #![auto]
                self@.first_entry_at(mint_account, i) && *r == self@.allowed_mint_accounts[i],
    {
        let mut i: usize = 0;
        while i < self.allowed_mint_accounts.len()
            invariant
                i <= self.allowed_mint_accounts.len(),
                self@.lists_mint(mint_account),
                forall|j: int|
                    0 <= j < i ==> (#[trigger] self.allowed_mint_accounts@[j]).mint_account
                        != mint_account,
            decreases self.allowed_mint_accounts.len() - i,
        {
            if self.allowed_mint_accounts[i].mint_account == mint_account {
                assert(self@.first_entry_at(mint_account, i as int));
                return &self.allowed_mint_accounts[i];
            }
            i += 1;
        }
        proof {
            assert(false);
        }
        &self.allowed_mint_accounts[0]
    }

    /// Whether `operator_pubkey` is one of the operators.
    pub fn is_operator(&self, operator_pubkey: Address) -> (r: bool)
        ensures
            r == self@.has_operator(operator_pubkey),
    {
        let mut i: usize = 0;
        while i < self.operators.len()
            invariant
                i <= self.operators.len(),
                forall|j: int| 0 <= j < i ==> self.operators@[j] != operator_pubkey,
            decreases self.operators.len() - i,
        {
            if self.operators[i] == operator_pubkey {
                return true;
            }
            i += 1;
        }
        false
    }
}

/// The lookup tables kept for one owner.
#[derive(Debug, PartialEq, Eq)]
pub struct LookupTableRegistry {
    /// Bump of the registry's derived address.
    pub bump: u8,
    /// Whose tables these are.
    pub owner: Address,
    /// The tables.
    pub lookup_table_addresses: Vec<Address>,
}

impl Default for LookupTableRegistry {
    fn default() -> (r: LookupTableRegistry)
        ensures
            r.bump == 0,
            r.owner.is_unset(),
            r.lookup_table_addresses@.len() == 0,
    {
        LookupTableRegistry {
            bump: 0,
            owner: Address::default(),
            lookup_table_addresses: Vec::new(),
        }
    }
}

} // verus!
