//! Small verified modules: each states what it computes as a contract and
//! proves it. The largest is `webserver`, the control logic of a fixed-size
//! worker pool.

pub mod advanced_functions;
pub mod advanced_traits;
pub mod closures;
pub mod functions;
pub mod generics;
pub mod hello_macro;
pub mod hello_test;
pub mod decimal;
pub mod iterators;
pub mod minigrep;
pub mod mockblog;
pub mod mockblogex;
pub mod mockgui;
pub mod mockobj;
pub mod ownership;
pub mod references;
pub mod restaurant;
pub mod slices;
pub mod structs;
pub mod traits;
pub mod webserver;
