//! A small bidirectional translator between English and the constructed
//! language Kana: a fixed lexicon, a tokenizer, two heuristic role parsers,
//! two renderers, and a direction resolver.

pub mod dict;
pub mod props;
pub mod parser;
pub mod text;
pub mod translator;
