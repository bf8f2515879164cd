//! State of the matrix test runner: the test files it runs and the timings
//! of the check assertions it has executed.

use vstd::prelude::*;

verus! {

/// Matrix test runner that parses and executes YAML-based tests.
pub struct MatrixRunner {
    /// The test files to run, in order.
    pub test_files: Vec<String>,
    /// (file, test case, duration in ms) of each check assertion run so far.
    pub check_times: Vec<(String, String, u128)>,
}

impl MatrixRunner {
    /// Create a new matrix runner with the specified test files and no timings.
    pub fn new(test_files: Vec<String>) -> (r: Self)
        ensures
            r.test_files@ == test_files@,
            r.check_times@.len() == 0,
    {
        MatrixRunner { test_files, check_times: Vec::new() }
    }

    /// Records the duration of one check assertion.
    pub fn record_check_time(&mut self, filename: String, test_case: String, duration_ms: u128)
        ensures
            final(self).test_files@ == old(self).test_files@,
            final(self).check_times@ == old(self).check_times@.push((filename, test_case, duration_ms)),
    {
        self.check_times.push((filename, test_case, duration_ms));
    }
}

} // verus!
