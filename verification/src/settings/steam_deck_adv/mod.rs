pub mod battery;
