pub mod decode;
pub mod encode;
pub mod rewrite;
pub mod run;
pub mod value;
