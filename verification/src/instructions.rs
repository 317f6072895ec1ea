//! The four operations of the game, one module each. Every operation takes the
//! records it works on in a context of its own and either commits all of its
//! changes or none.

pub mod claim_reward;
pub mod create_player;
pub mod initialize_game;
pub mod upgrade_miner;

pub use claim_reward::ClaimReward;
pub use create_player::CreatePlayer;
pub use initialize_game::InitializeGame;
pub use upgrade_miner::UpgradeMiner;
