pub mod connectable;
pub mod counter;
pub mod filter;
pub mod gather;
pub mod identified_input;
pub mod output_counter;
pub mod scatter;
pub mod sink;
pub mod source;
pub mod wrap;
pub mod ymerge;
pub mod ysplit;
