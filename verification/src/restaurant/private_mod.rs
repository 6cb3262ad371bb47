//! Not public itself; what it holds is handed on under another path.

pub mod re_export_mod;
