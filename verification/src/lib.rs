//! An hourly water reminder.
//!
//! The crate holds the decisions of a small desktop utility: which clock
//! samples call for a reminder, what the reminder says, how long the
//! scheduler rests between two samples, and what a manual reminder asks the
//! system to show. Reading the clock, showing a notification and sleeping
//! are left to the program that drives the scheduler.

pub mod clock;
pub mod notification;
pub mod scheduler;

pub use clock::ClockSample;
pub use notification::send_water_reminder;
pub use notification::NotificationRequest;
pub use scheduler::check;
pub use scheduler::Directive;
