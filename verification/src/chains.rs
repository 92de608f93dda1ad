use vstd::prelude::*;

use crate::text::str_eq;

verus! {

/// The Solana clusters a wallet can talk to.
#[derive(Debug, PartialEq, Eq, PartialOrd, Ord, Clone, Copy, Hash, Structural)]
pub enum Chains {
    MainNet,
    DevNet,
    TestNet,
    LocalNet,
}

/// The short name of a cluster, as used in explorer query strings.
pub open spec fn spec_cluster_name(c: Chains) -> Seq<char> {
    match c {
        Chains::MainNet => "mainnet"@,
        Chains::DevNet => "devnet"@,
        Chains::TestNet => "testnet"@,
        Chains::LocalNet => "localnet"@,
    }
}

/// The RPC endpoint a cluster is reached at by default.
pub open spec fn spec_cluster_endpoint(c: Chains) -> Seq<char> {
    match c {
        Chains::MainNet => "https://api.mainnet-beta.solana.com"@,
        Chains::DevNet => "https://api.devnet.solana.com"@,
        Chains::TestNet => "https://api.testnet.solana.com"@,
        Chains::LocalNet => "http://localhost:8899"@,
    }
}

/// The wallet-standard chain identifier of a cluster.
pub open spec fn spec_cluster_chain(c: Chains) -> Seq<char> {
    match c {
        Chains::MainNet => "solana:mainnet"@,
        Chains::DevNet => "solana:devnet"@,
        Chains::TestNet => "solana:testnet"@,
        Chains::LocalNet => "solana:localnet"@,
    }
}

/// The cluster a text names, by its short name or its chain identifier.
pub open spec fn spec_cluster_from_text(text: Seq<char>) -> Option<Chains> {
    if text == spec_cluster_name(Chains::MainNet) || text == spec_cluster_chain(Chains::MainNet) {
        Some(Chains::MainNet)
    } else if text == spec_cluster_name(Chains::DevNet) || text == spec_cluster_chain(Chains::DevNet) {
        Some(Chains::DevNet)
    } else if text == spec_cluster_name(Chains::TestNet) || text == spec_cluster_chain(Chains::TestNet) {
        Some(Chains::TestNet)
    } else if text == spec_cluster_name(Chains::LocalNet) || text == spec_cluster_chain(Chains::LocalNet) {
        Some(Chains::LocalNet)
    } else {
        None
    }
}

impl Default for Chains {
    /// Devnet.
    fn default() -> (res: Self)
        ensures
            res == Chains::DevNet,
    {
        Chains::DevNet
    }
}

impl Chains {
    /// The RPC endpoint of the cluster.
    pub fn endpoint(&self) -> (res: &'static str)
        ensures
            res@ == spec_cluster_endpoint(*self),
    {
        match self {
            Chains::MainNet => "https://api.mainnet-beta.solana.com",
            Chains::DevNet => "https://api.devnet.solana.com",
            Chains::TestNet => "https://api.testnet.solana.com",
            Chains::LocalNet => "http://localhost:8899",
        }
    }

    /// The wallet-standard chain identifier of the cluster.
    pub fn chain(&self) -> (res: &'static str)
        ensures
            res@ == spec_cluster_chain(*self),
    {
        match self {
            Chains::MainNet => "solana:mainnet",
            Chains::DevNet => "solana:devnet",
            Chains::TestNet => "solana:testnet",
            Chains::LocalNet => "solana:localnet",
        }
    }

    /// The cluster that `text` names, by short name or chain identifier.
    pub fn from_text(text: &str) -> (res: Option<Chains>)
        ensures
            res == spec_cluster_from_text(text@),
    {
        if str_eq(text, "mainnet") || str_eq(text, "solana:mainnet") {
            Some(Chains::MainNet)
        } else if str_eq(text, "devnet") || str_eq(text, "solana:devnet") {
            Some(Chains::DevNet)
        } else if str_eq(text, "testnet") || str_eq(text, "solana:testnet") {
            Some(Chains::TestNet)
        } else if str_eq(text, "localnet") || str_eq(text, "solana:localnet") {
            Some(Chains::LocalNet)
        } else {
            None
        }
    }

    /// The cluster that `text` names, or devnet when it names none.
    pub fn from_text_or_default(text: &str) -> (res: Chains)
        ensures
            res == match spec_cluster_from_text(text@) {
                Some(c) => c,
                None => Chains::DevNet,
            },
    {
        match Self::from_text(text) {
            Some(c) => c,
            None => Chains::default(),
        }
    }

    /// The short name of the cluster.
    pub fn name(&self) -> (res: &'static str)
        ensures
            res@ == spec_cluster_name(*self),
    {
        match self {
            Chains::MainNet => "mainnet",
            Chains::DevNet => "devnet",
            Chains::TestNet => "testnet",
            Chains::LocalNet => "localnet",
        }
    }
}

/// A cluster is found again from its short name and from its chain identifier.
pub proof fn law_cluster_text_round_trip(c: Chains)
    ensures
        spec_cluster_from_text(spec_cluster_name(c)) == Some(c),
        spec_cluster_from_text(spec_cluster_chain(c)) == Some(c),
{
    reveal_strlit("mainnet");
    reveal_strlit("devnet");
    reveal_strlit("testnet");
    reveal_strlit("localnet");
    reveal_strlit("solana:mainnet");
    reveal_strlit("solana:devnet");
    reveal_strlit("solana:testnet");
    reveal_strlit("solana:localnet");
    assert(spec_cluster_name(Chains::MainNet).len() == 7 && spec_cluster_name(Chains::DevNet).len() == 6);
    assert(spec_cluster_name(Chains::TestNet).len() == 7 && spec_cluster_name(Chains::LocalNet).len() == 8);
    assert(spec_cluster_chain(Chains::MainNet).len() == 14 && spec_cluster_chain(Chains::DevNet).len() == 13);
    assert(spec_cluster_chain(Chains::TestNet).len() == 14 && spec_cluster_chain(Chains::LocalNet).len() == 15);
    assert(spec_cluster_name(Chains::TestNet)[0] != spec_cluster_name(Chains::MainNet)[0]);
    assert(spec_cluster_chain(Chains::TestNet)[7] != spec_cluster_chain(Chains::MainNet)[7]);
}

} // verus!
