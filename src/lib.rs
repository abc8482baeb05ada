//! State layer of a fractional real-estate investment ledger: users,
//! properties, share purchases and leases, with their cross-record rules.
//!
//! The whole state is an explicit [`StorageState`] value that each operation
//! receives together with the caller's [`Identity`]; refused operations leave
//! it unchanged.

pub mod identity;
pub mod records;
pub mod catalog;
pub mod search;
pub mod ledger;
pub mod market;
pub mod registry;
pub mod leases;
pub mod laws;

pub use catalog::{parse_amenities, parse_amenity, parse_property_type};
pub use identity::Identity;
pub use ledger::{get_user_data, register_user, BackendError, StorageState};
pub use leases::{get_all_leases, get_my_leases, register_lease};
pub use market::{buy_share, get_user_invested_properties};
pub use records::{
    Amenity, Lease, LeaseId, LeaseStatus, Property, PropertyAddress, PropertyFinancialDetails,
    PropertyId, PropertyType, Timestamp, UserData, UserInvestedProperty, UserInvestment,
};
pub use registry::{get_all_properties, get_user_registered_properties, register_property};
