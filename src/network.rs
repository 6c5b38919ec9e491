//! The base-chain network a node runs against.

use vstd::prelude::*;

verus! {

#[derive(Clone, Copy, Debug, PartialEq, Eq, Structural)]
pub enum Network {
    Mainnet,
    Testnet,
    Rinkeby,
    Ropsten,
    /// Self-hosted networks.
    Localhost,
    Unknown,
    /// Network of test harnesses.
    Test,
}

pub open spec fn chain_id_of(n: Network) -> u32 {
    match n {
        Network::Mainnet => 201018,
        Network::Testnet => 201030,
        Network::Ropsten => 3,
        Network::Rinkeby => 4,
        Network::Localhost => 9,
        _ => 0,
    }
}

impl Network {
    /// Chain id on the base chain. `Unknown` and `Test` have none.
    pub fn chain_id(self) -> (r: u32)
        requires
            !(self is Unknown || self is Test),
        ensures
            r == chain_id_of(self),
    {
        match self {
            Network::Mainnet => 201018,
            Network::Testnet => 201030,
            Network::Ropsten => 3,
            Network::Rinkeby => 4,
            Network::Localhost => 9,
            Network::Unknown => 0,
            Network::Test => 0,
        }
    }

    /// The network's name, as `from_name` reads it.
    pub fn name(&self) -> (r: &'static str)
        ensures
            r@ == match *self {
                Network::Mainnet => "mainnet"@,
                Network::Testnet => "testnet"@,
                Network::Rinkeby => "rinkeby"@,
                Network::Ropsten => "ropsten"@,
                Network::Localhost => "localhost"@,
                Network::Unknown => "unknown"@,
                Network::Test => "test"@,
            },
    {
        match self {
            Network::Mainnet => "mainnet",
            Network::Testnet => "testnet",
            Network::Rinkeby => "rinkeby",
            Network::Ropsten => "ropsten",
            Network::Localhost => "localhost",
            Network::Unknown => "unknown",
            Network::Test => "test",
        }
    }

    /// Reads a network name; `unknown` and any other text are refused and
    /// handed back.
    pub fn from_name(s: &str) -> (r: Result<Network, String>)
        ensures
            s@ == "mainnet"@ ==> r == Ok::<Network, String>(Network::Mainnet),
            s@ == "testnet"@ ==> r == Ok::<Network, String>(Network::Testnet),
            s@ == "rinkeby"@ ==> r == Ok::<Network, String>(Network::Rinkeby),
            s@ == "ropsten"@ ==> r == Ok::<Network, String>(Network::Ropsten),
            s@ == "localhost"@ ==> r == Ok::<Network, String>(Network::Localhost),
            s@ == "test"@ ==> r == Ok::<Network, String>(Network::Test),
            r is Err ==> r->Err_0@ == s@,
            r is Err <==> !(s@ == "mainnet"@ || s@ == "testnet"@ || s@ == "rinkeby"@ || s@ == "ropsten"@
                || s@ == "localhost"@ || s@ == "test"@),
    {
        let owned = s.to_owned();
        proof {
            reveal_strlit("mainnet");
            reveal_strlit("testnet");
            reveal_strlit("rinkeby");
            reveal_strlit("ropsten");
            reveal_strlit("localhost");
            reveal_strlit("test");
            assert("mainnet"@[0] != "testnet"@[0]);
            assert("mainnet"@[0] != "rinkeby"@[0] && "testnet"@[0] != "rinkeby"@[0]);
            assert("mainnet"@[0] != "ropsten"@[0] && "testnet"@[0] != "ropsten"@[0] && "rinkeby"@[1] != "ropsten"@[1]);
            assert("test"@.len() != "mainnet"@.len() && "test"@.len() != "localhost"@.len());
            assert("localhost"@.len() != "mainnet"@.len());
        }
        if owned == "mainnet".to_owned() {
            Ok(Network::Mainnet)
        } else if owned == "testnet".to_owned() {
            Ok(Network::Testnet)
        } else if owned == "rinkeby".to_owned() {
            Ok(Network::Rinkeby)
        } else if owned == "ropsten".to_owned() {
            Ok(Network::Ropsten)
        } else if owned == "localhost".to_owned() {
            Ok(Network::Localhost)
        } else if owned == "test".to_owned() {
            Ok(Network::Test)
        } else {
            Err(owned)
        }
    }
}

} // verus!
