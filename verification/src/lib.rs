//! Decoder for the 16-bit instruction words of the pvm processor.
//!
//! A word packs five bit fields. [`instruction::Instruction::split_bits`] cuts
//! a word into its raw fields and
//! [`instruction::Instruction::parse_instruction`] turns it into a typed
//! [`instruction::Instruction`] whose family says whether the word is a legal
//! encoding. [`census::valid_words`] tabulates the legal words.

pub mod alu_command;
pub mod census;
pub mod instruction;
