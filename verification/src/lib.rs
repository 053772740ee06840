//! Account registration and sign-in decisions of an authentication service.
pub mod callback;
pub mod display_name;
pub mod form;
pub mod id;
pub mod model;
pub mod register;
pub mod relying_party;
pub mod template;
pub mod text;
pub mod time;
pub mod tokens;
pub mod webauthn;
