pub mod filter_wrap;
pub mod gather_wrap;
pub mod scatter_wrap;
pub mod sink_wrap;
pub mod source_wrap;
pub mod ymerge_wrap;
pub mod ysplit_wrap;
