//! The four facility facades: term loans, open-term collateralized loans,
//! revolving lines and overdrafts.

pub mod open_term;
pub mod overdraft;
pub mod revolving;
pub mod term_loan;
