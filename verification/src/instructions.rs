pub mod add_comment;
pub mod add_reaction;
pub mod remove_comment;
pub mod remove_reaction;
