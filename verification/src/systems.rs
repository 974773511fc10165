//! The gameplay systems, in the order in which a frame runs them, and the
//! planning of what a frame draws.

pub mod camera;
pub mod contact;
pub mod death;
pub mod enemyai;
pub mod input;
pub mod physics;
pub mod render;
pub mod selfdamage;
pub mod spawn;
pub mod status;

pub use self::camera::camera;
pub use self::contact::contactdamage;
pub use self::death::death;
pub use self::enemyai::enemyai;
pub use self::input::input;
pub use self::physics::physics;
pub use self::render::render;
pub use self::selfdamage::selfdamage;
pub use self::spawn::spawn;
pub use self::status::status;
