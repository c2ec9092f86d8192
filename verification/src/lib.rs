//! Rules of a newsletter web service: validated subscriber addresses,
//! database connection strings, the public base URL, the validation and
//! confirmation of new subscriptions, the delivery plan of a newsletter
//! issue, and the HTTP statuses of the endpoints' errors.

pub mod configuration;
pub mod decimal;
pub mod domain;
pub mod routes;
pub mod startup;
