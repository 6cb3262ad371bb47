//! A restaurant: the front of house, where guests are seated and served,
//! and the back of house, where the cooking is done.

pub mod front_of_house;
pub mod back_of_house;
mod private_mod;

pub use crate::restaurant::private_mod::re_export_mod;

use std::fmt::Result;
use std::io::Result as IoResult;
use vstd::prelude::*;
use vstd::string::StringExecFns;
use rand::rngs::ThreadRng;
use rand::Rng;
use crate::restaurant::front_of_house::hosting;
use crate::restaurant::front_of_house::hosting::add_to_waitlist;
use crate::restaurant::front_of_house::serving;

verus! {

/// A guest arrives and is put on the waiting list, twice over.
pub fn eat_at_restaurant() {
    crate::restaurant::front_of_house::hosting::add_to_waitlist();
    front_of_house::hosting::add_to_waitlist();
}

/// A guest orders the summer breakfast with rye toast, thinks again, and
/// asks for wheat. Returns what the guest says.
pub fn eat_breakfast_at_restaurant() -> (request: String)
    ensures
        request@ == "I'd like "@ + "Wheat"@ + " toast please"@,
{
    let mut meal = back_of_house::Breakfast::summer("Rye");
    meal.set_toast("Wheat");
    let _order1 = back_of_house::Appetizer::Soup;
    let _order2 = back_of_house::Appetizer::Salad;
    let mut request = String::from_str("I'd like ");
    request.append(meal.toast());
    request.append(" toast please");
    request
}

/// An order is served, the module named by a path from here.
pub fn use_relative_path() {
    serving::server_order();
}

/// A guest is put on the waiting list, the module named by its full path.
pub fn use_absolute_path() {
    hosting::add_to_waitlist();
}

/// A guest is put on the waiting list twice: once by the function's bare
/// name, once through its module. The two names do not clash.
pub fn use_absolute_func() {
    add_to_waitlist();
    hosting::add_to_waitlist();
}

/// The error of formatting, from `std::fmt`. Nothing is known of what it holds.
#[verifier::external_type_specification]
#[verifier::external_body]
pub struct ExFmtError(std::fmt::Error);

/// The error of input and output, from `std::io`. Nothing is known of what it holds.
#[verifier::external_type_specification]
#[verifier::external_body]
pub struct ExIoError(std::io::Error);

/// Succeeds. Its result type is the `Result` of formatting.
pub fn function1() -> (result: Result)
    ensures
        result is Ok,
{
    Ok(())
}

/// Succeeds. Its result type is the `Result` of input and output, which
/// goes by another name here so that the two do not clash.
pub fn function2() -> (result: IoResult<()>)
    ensures
        result is Ok,
{
    Ok(())
}

/// The random number generator of a thread, from the crate `rand`. Nothing
/// is known of what it holds.
#[verifier::external_type_specification]
#[verifier::external_body]
pub struct ExThreadRng(ThreadRng);

/// `rand::thread_rng`: the generator of the calling thread, seeded by the
/// system. Nothing is claimed of it.
#[verifier::external_body]
fn thread_rng() -> ThreadRng {
    rand::thread_rng()
}

/// `rand::Rng::gen_range` for the half-open range from `low` to `high`. It
/// panics on an empty range, which the precondition rules out. The contract
/// claims of the number drawn only that it lies in the range; which one it
/// is, is up to chance.
#[verifier::external_body]
fn gen_range(rng: &mut ThreadRng, low: i32, high: i32) -> (n: i32)
    requires
        low < high,
    ensures
        low <= n < high,
{
    rng.gen_range(low..high)
}

/// A number between 1 and 100, drawn at random.
pub fn secret_number() -> (n: i32)
    ensures
        1 <= n <= 100,
{
    let mut rng = thread_rng();
    gen_range(&mut rng, 1, 101)
}

} // verus!
