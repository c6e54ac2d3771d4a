//! Core engine of an after-school program management system.
//!
//! The library models the program's records — members (base identities),
//! teacher and student role attachments, per-year academic records, daily
//! attendance rosters, announcements and legacy grade records — as an
//! in-memory store, and verifies the rules that govern them: how a base
//! identity is created or reused when a role is attached, how composite
//! writes stay atomic, how attendance rosters are replaced wholesale, how
//! role- and ownership-based authorization gates every mutation, and how
//! soft-deleted rows are kept out of every read.

pub mod announcement;
pub mod attendance;
pub mod auth;
pub mod calendar;
pub mod config;
pub mod credential;
pub mod grades;
pub mod identity;
pub mod member;
pub mod permission;
pub mod response;
pub mod roles;
pub mod student;
pub mod student_info;
pub mod teacher;
