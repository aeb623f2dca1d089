pub mod commit;
pub mod pr;
