//! The kinds of argument and the facets they are made of.

pub mod base;
pub mod flag;
pub mod opt;
pub mod positional;
pub mod switched;
pub mod valued;

pub use self::base::{Base, BaseArg, BaseView, GetBase};
pub use self::flag::{Flag, FlagView};
pub use self::opt::{Opt, OptView};
pub use self::positional::{Positional, PositionalView};
pub use self::switched::{GetSwitched, Switched, SwitchedArg, SwitchedView};
pub use self::valued::{GetValued, Valued, ValuedArg, ValuedView};
