pub mod opt;
pub mod res;

pub use opt::Opt;
pub use opt::OptionCheck;
pub use opt::OptionFns;
pub use res::Res;
pub use res::ResultCheck;
pub use res::ResultFns;
