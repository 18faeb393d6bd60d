//! Planning and bookkeeping core of a small repository runner: it recognises
//! what kind of JavaScript project a `package.json` describes, derives the
//! commands that install and start it, picks a runtime backend, and tracks
//! execution sessions through their lifecycle.

pub mod kernel;
pub mod text;
