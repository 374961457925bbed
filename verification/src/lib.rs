//! Membership management for a hotel loyalty club: members, their interests,
//! user accounts, coupons and the e-mails sent to members.

pub mod gender;
pub mod text;
pub mod dates;
pub mod interest;
pub mod member;
pub mod passwords;
pub mod user;
pub mod email;
pub mod cupon;
pub mod templates;
pub mod pagination;
pub mod filters;
pub mod mailing;
pub mod ui;
pub mod components;
pub mod forms;
pub mod member_pages;
pub mod cupon_check;
pub mod member_interests;
pub mod excel;
pub mod campaigns;
pub mod inputs;
