use vstd::prelude::*;

use crate::types::{Address, Error, MAX_FEE_BIPS, OP_ALL, OP_CHARGE};

verus! {

/// A merchant's billing configuration.
#[derive(Debug, PartialEq, Eq)]
pub struct MerchantConfig {
    pub merchant: Address,
    pub payout_address: Address,
    pub fee_bips: u32,
    pub allowed_operations: u32,
    pub fee_address: Option<Address>,
    pub redirect_url: String,
    pub is_active: bool,
    pub paused: bool,
}

/// The first rule that a fee and a set of operation flags break, if any.
pub open spec fn config_violation(fee_bips: u32, allowed_operations: u32) -> Option<Error> {
    if fee_bips > MAX_FEE_BIPS {
        Some(Error::InvalidFeeBips)
    } else if allowed_operations & !OP_ALL != 0 {
        Some(Error::InvalidOperations)
    } else if allowed_operations & OP_CHARGE == 0 {
        Some(Error::MustAllowChargeOperation)
    } else {
        None
    }
}

/// Checks a fee and a set of operation flags.
pub fn validate_config(fee_bips: u32, allowed_operations: u32) -> (r: Option<Error>)
    ensures
        r == config_violation(fee_bips, allowed_operations),
{
    if fee_bips > MAX_FEE_BIPS {
        Some(Error::InvalidFeeBips)
    } else if allowed_operations & !OP_ALL != 0 {
        Some(Error::InvalidOperations)
    } else if allowed_operations & OP_CHARGE == 0 {
        Some(Error::MustAllowChargeOperation)
    } else {
        None
    }
}

/// The configuration a merchant starts with: active and not paused.
pub open spec fn initial_config(
    merchant: Address,
    payout_address: Address,
    fee_bips: u32,
    allowed_operations: u32,
    fee_address: Option<Address>,
    redirect_url: String,
) -> MerchantConfig {
    MerchantConfig {
        merchant,
        payout_address,
        fee_bips,
        allowed_operations,
        fee_address,
        redirect_url,
        is_active: true,
        paused: false,
    }
}

/// A configuration with each given field replaced and every other field kept.
pub open spec fn updated_config(
    c: MerchantConfig,
    payout_address: Option<Address>,
    fee_bips: Option<u32>,
    allowed_operations: Option<u32>,
    is_active: Option<bool>,
    fee_address: Option<Address>,
    redirect_url: Option<String>,
    paused: Option<bool>,
) -> MerchantConfig {
    MerchantConfig {
        merchant: c.merchant,
        payout_address: match payout_address {
            Some(v) => v,
            None => c.payout_address,
        },
        fee_bips: match fee_bips {
            Some(v) => v,
            None => c.fee_bips,
        },
        allowed_operations: match allowed_operations {
            Some(v) => v,
            None => c.allowed_operations,
        },
        fee_address: match fee_address {
            Some(v) => Some(v),
            None => c.fee_address,
        },
        redirect_url: match redirect_url {
            Some(v) => v,
            None => c.redirect_url,
        },
        is_active: match is_active {
            Some(v) => v,
            None => c.is_active,
        },
        paused: match paused {
            Some(v) => v,
            None => c.paused,
        },
    }
}

/// The outcome of initializing a merchant's configuration.
pub open spec fn initialize_outcome(
    configs: Map<Address, MerchantConfig>,
    merchant: Address,
    payout_address: Address,
    fee_bips: u32,
    allowed_operations: u32,
    fee_address: Option<Address>,
    redirect_url: String,
) -> Result<MerchantConfig, Error> {
    if config_violation(fee_bips, allowed_operations) is Some {
        Err(config_violation(fee_bips, allowed_operations)->0)
    } else if configs.contains_key(merchant) {
        Err(Error::ConfigAlreadyExists)
    } else {
        Ok(
            initial_config(
                merchant,
                payout_address,
                fee_bips,
                allowed_operations,
                fee_address,
                redirect_url,
            ),
        )
    }
}

/// The outcome of a partial update of a merchant's configuration.
pub open spec fn update_outcome(
    configs: Map<Address, MerchantConfig>,
    merchant: Address,
    payout_address: Option<Address>,
    fee_bips: Option<u32>,
    allowed_operations: Option<u32>,
    is_active: Option<bool>,
    fee_address: Option<Address>,
    redirect_url: Option<String>,
    paused: Option<bool>,
) -> Result<MerchantConfig, Error> {
    if !configs.contains_key(merchant) {
        Err(Error::ConfigNotFound)
    } else {
        let c = updated_config(
            configs[merchant],
            payout_address,
            fee_bips,
            allowed_operations,
            is_active,
            fee_address,
            redirect_url,
            paused,
        );
        if config_violation(c.fee_bips, c.allowed_operations) is Some {
            Err(config_violation(c.fee_bips, c.allowed_operations)->0)
        } else {
            Ok(c)
        }
    }
}

/// An exact copy of a configuration.
pub fn copy_config(c: &MerchantConfig) -> (r: MerchantConfig)
    ensures
        r == *c,
{
    MerchantConfig {
        merchant: c.merchant,
        payout_address: c.payout_address,
        fee_bips: c.fee_bips,
        allowed_operations: c.allowed_operations,
        fee_address: c.fee_address,
        redirect_url: c.redirect_url.clone(),
        is_active: c.is_active,
        paused: c.paused,
    }
}

/// No two configurations are for the same merchant.
pub open spec fn configs_unique(s: Seq<MerchantConfig>) -> bool {
    forall|i: int, j: int|
        0 <= i < s.len() && 0 <= j < s.len() && i != j ==> #[trigger] s[i].merchant
            != #[trigger] s[j].merchant
}

/// The map holds exactly the configurations of the list, keyed by merchant.
pub open spec fn configs_describe(s: Seq<MerchantConfig>, m: Map<Address, MerchantConfig>) -> bool {
    &&& forall|i: int|
        0 <= i < s.len() ==> m.contains_key(#[trigger] s[i].merchant) && m[s[i].merchant] == s[i]
    &&& forall|k: Address|
        #[trigger] m.contains_key(k) ==> exists|i: int| 0 <= i < s.len() && #[trigger] s[i].merchant == k
}

/// The configurations of all merchants, one per merchant.
pub struct MerchantRegistry {
    configs: Vec<MerchantConfig>,
    by_merchant: Ghost<Map<Address, MerchantConfig>>,
}

impl View for MerchantRegistry {
    type V = Map<Address, MerchantConfig>;

    closed spec fn view(&self) -> Map<Address, MerchantConfig> {
        self.by_merchant@
    }
}

impl MerchantRegistry {
    /// The stored list and the map agree, one entry per merchant.
    pub closed spec fn wf(&self) -> bool {
        &&& configs_unique(self.configs@)
        &&& configs_describe(self.configs@, self.by_merchant@)
    }

    /// Builds a registry from stored configurations, provided no merchant appears twice.
    pub fn from_configs(configs: Vec<MerchantConfig>) -> (r: Option<MerchantRegistry>)
        ensures
            r is Some <==> configs_unique(configs@),
            r matches Some(g) ==> g.wf() && configs_describe(configs@, g@),
    {
        let len = configs.len();
        for i in 0..len
            invariant
                len == configs@.len(),
                forall|a: int, b: int|
                    0 <= a < i && 0 <= b < len && a != b ==> #[trigger] configs@[a].merchant
                        != #[trigger] configs@[b].merchant,
        {
            for j in 0..len
                invariant
                    len == configs@.len(),
                    i < len,
                    forall|a: int, b: int|
                        0 <= a < i && 0 <= b < len && a != b ==> #[trigger] configs@[a].merchant
                            != #[trigger] configs@[b].merchant,
                    forall|b: int|
                        0 <= b < j && b != i ==> configs@[i as int].merchant
                            != #[trigger] configs@[b].merchant,
            {
                if j != i && configs[i].merchant == configs[j].merchant {
                    proof {
                        assert(configs@[i as int].merchant == configs@[j as int].merchant);
                    }
                    return None;
                }
            }
        }
        let ghost s = configs@;
        let ghost m = Map::new(
            |k: Address| exists|i: int| 0 <= i < s.len() && #[trigger] s[i].merchant == k,
            |k: Address| s[choose|i: int| 0 <= i < s.len() && #[trigger] s[i].merchant == k],
        );
        proof {
            assert forall|i: int| 0 <= i < s.len() implies m.contains_key(#[trigger] s[i].merchant)
                && m[s[i].merchant] == s[i] by {
                let k = s[i].merchant;
                assert(m.contains_key(k));
                let c = choose|c: int| 0 <= c < s.len() && #[trigger] s[c].merchant == k;
                if c != i {
                    assert(s[c].merchant != s[i].merchant);
                }
            }
        }
        Some(MerchantRegistry { configs, by_merchant: Ghost(m) })
    }

    /// A copy of the stored configurations.
    pub fn to_configs(&self) -> (r: Vec<MerchantConfig>)
        requires
            self.wf(),
        ensures
            configs_unique(r@),
            configs_describe(r@, self@),
    {
        let mut out: Vec<MerchantConfig> = Vec::new();
        let len = self.configs.len();
        for i in 0..len
            invariant
                len == self.configs@.len(),
                out@ == self.configs@.take(i as int),
        {
            out.push(copy_config(&self.configs[i]));
            proof {
                assert(out@ =~= self.configs@.take(i as int + 1));
            }
        }
        assert(out@ =~= self.configs@);
        out
    }

    pub fn new() -> (r: MerchantRegistry)
        ensures
            r.wf(),
            r@ == Map::<Address, MerchantConfig>::empty(),
    {
        MerchantRegistry { configs: Vec::new(), by_merchant: Ghost(Map::empty()) }
    }

    fn find(&self, merchant: Address) -> (r: Option<usize>)
        requires
            self.wf(),
        ensures
            r matches Some(i) ==> i < self.configs@.len() && self.configs@[i as int].merchant
                == merchant && self@.contains_key(merchant) && self@[merchant]
                == self.configs@[i as int],
            r is None ==> !self@.contains_key(merchant),
    {
        let len = self.configs.len();
        for i in 0..len
            invariant
                len == self.configs@.len(),
                self.wf(),
                forall|j: int| 0 <= j < i ==> #[trigger] self.configs@[j].merchant != merchant,
        {
            if self.configs[i].merchant == merchant {
                return Some(i);
            }
        }
        None
    }

    /// The configuration of a merchant, if it has one.
    pub fn get(&self, merchant: Address) -> (r: Option<MerchantConfig>)
        requires
            self.wf(),
        ensures
            r == (if self@.contains_key(merchant) {
                Some(self@[merchant])
            } else {
                None::<MerchantConfig>
            }),
    {
        match self.find(merchant) {
            Some(i) => Some(copy_config(&self.configs[i])),
            None => None,
        }
    }

    /// Creates a merchant's configuration; a merchant has at most one.
    pub fn initialize(
        &mut self,
        merchant: Address,
        payout_address: Address,
        fee_bips: u32,
        allowed_operations: u32,
        fee_address: Option<Address>,
        redirect_url: String,
    ) -> (r: Result<MerchantConfig, Error>)
        requires
            old(self).wf(),
        ensures
            final(self).wf(),
            r == initialize_outcome(
                old(self)@,
                merchant,
                payout_address,
                fee_bips,
                allowed_operations,
                fee_address,
                redirect_url,
            ),
            final(self)@ == (match r {
                Ok(c) => old(self)@.insert(merchant, c),
                Err(_) => old(self)@,
            }),
    {
        if let Some(e) = validate_config(fee_bips, allowed_operations) {
            return Err(e);
        }
        if self.find(merchant).is_some() {
            return Err(Error::ConfigAlreadyExists);
        }
        let c = MerchantConfig {
            merchant,
            payout_address,
            fee_bips,
            allowed_operations,
            fee_address,
            redirect_url,
            is_active: true,
            paused: false,
        };
        let ghost old_configs = self.configs@;
        self.configs.push(copy_config(&c));
        self.by_merchant = Ghost(self.by_merchant@.insert(merchant, c));
        proof {
            assert forall|k: Address| #[trigger] self.by_merchant@.contains_key(k) implies exists|
                i: int,
            |
                0 <= i < self.configs@.len() && #[trigger] self.configs@[i].merchant == k by {
                if k == merchant {
                    assert(self.configs@[old_configs.len() as int].merchant == k);
                } else {
                    let i = choose|i: int|
                        0 <= i < old_configs.len() && #[trigger] old_configs[i].merchant == k;
                    assert(self.configs@[i].merchant == k);
                }
            }
        }
        Ok(c)
    }

    /// Replaces the given fields of a merchant's configuration.
    pub fn update(
        &mut self,
        merchant: Address,
        payout_address: Option<Address>,
        fee_bips: Option<u32>,
        allowed_operations: Option<u32>,
        is_active: Option<bool>,
        fee_address: Option<Address>,
        redirect_url: Option<String>,
        paused: Option<bool>,
    ) -> (r: Result<MerchantConfig, Error>)
        requires
            old(self).wf(),
        ensures
            final(self).wf(),
            r == update_outcome(
                old(self)@,
                merchant,
                payout_address,
                fee_bips,
                allowed_operations,
                is_active,
                fee_address,
                redirect_url,
                paused,
            ),
            final(self)@ == (match r {
                Ok(c) => old(self)@.insert(merchant, c),
                Err(_) => old(self)@,
            }),
    {
        let i = match self.find(merchant) {
            Some(i) => i,
            None => {
                return Err(Error::ConfigNotFound);
            },
        };
        let cur = &self.configs[i];
        let c = MerchantConfig {
            merchant: cur.merchant,
            payout_address: match payout_address {
                Some(v) => v,
                None => cur.payout_address,
            },
            fee_bips: match fee_bips {
                Some(v) => v,
                None => cur.fee_bips,
            },
            allowed_operations: match allowed_operations {
                Some(v) => v,
                None => cur.allowed_operations,
            },
            fee_address: match fee_address {
                Some(v) => Some(v),
                None => cur.fee_address,
            },
            redirect_url: match redirect_url {
                Some(v) => v,
                None => cur.redirect_url.clone(),
            },
            is_active: match is_active {
                Some(v) => v,
                None => cur.is_active,
            },
            paused: match paused {
                Some(v) => v,
                None => cur.paused,
            },
        };
        if let Some(e) = validate_config(c.fee_bips, c.allowed_operations) {
            return Err(e);
        }
        let ghost old_configs = self.configs@;
        self.configs.set(i, copy_config(&c));
        self.by_merchant = Ghost(self.by_merchant@.insert(merchant, c));
        proof {
            assert forall|k: Address| #[trigger] self.by_merchant@.contains_key(k) implies exists|
                j: int,
            |
                0 <= j < self.configs@.len() && #[trigger] self.configs@[j].merchant == k by {
                if k == merchant {
                    assert(self.configs@[i as int].merchant == k);
                } else {
                    let j = choose|j: int|
                        0 <= j < old_configs.len() && #[trigger] old_configs[j].merchant == k;
                    assert(self.configs@[j].merchant == k);
                }
            }
        }
        Ok(c)
    }
}

} // verus!
