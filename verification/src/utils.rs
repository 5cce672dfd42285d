//! Small shared checks over request strings: character classes, lengths,
//! the date shape, the password policy, personal names, and e-mail
//! addresses.

pub mod email;
pub mod name;
pub mod password;
pub mod text;
