pub mod codec;
pub mod composite_a;
pub mod composite_b;
pub mod leaf_c;
pub mod leaf_d;
pub mod simple;
pub mod text;

pub use codec::DecodeError;
pub use codec::Value;
pub use composite_a::A;
pub use composite_b::B;
pub use leaf_c::C;
pub use leaf_d::D;
pub use simple::Greeting;
pub use simple::greet;
