//! What the admin may ask of the pool.

pub mod deposit_walien;
pub mod initialize;
pub mod rollback_position;
pub mod set_claim_activity;
pub mod set_sale_activity;
pub mod set_walien;
pub mod transfer_admin_authority;
pub mod withdraw_walien;

pub use deposit_walien::DepositWalien;
pub use initialize::Initialize;
pub use rollback_position::RollbackPosition;
pub use set_claim_activity::SetClaimActivity;
pub use set_sale_activity::SetSaleActivity;
pub use set_walien::SetWalien;
pub use transfer_admin_authority::TransferAdminAuthority;
pub use withdraw_walien::WithdrawWalien;
