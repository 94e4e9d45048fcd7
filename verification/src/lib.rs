//! A self-restart primitive: the decision core of relaunching the running
//! process from its own executable image, verified. The operating-system
//! edge (the own-path lookup and the detached spawn) lives outside the
//! library and feeds these functions plain values.

pub mod relaunch;
