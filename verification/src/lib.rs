pub mod decode;
pub mod selector;
pub mod session;
pub mod urls;
