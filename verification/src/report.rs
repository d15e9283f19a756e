use vstd::prelude::*;

verus! {

/// Assessment report preparation. Rendering and writing the report file
/// live with the caller; this type assembles the report's data.
pub struct ReportGenerator {}

impl ReportGenerator {
    /// Builds a report generator.
    pub fn new() -> (r: Self) {
        ReportGenerator {  }
    }

    /// Gathers the data a report is built from, as key/value pairs. No
    /// scan results are wired in yet: the call reports the fixed
    /// placeholder data set.
    pub fn collect_report_data(&self) -> (r: Vec<(String, String)>)
        ensures
            r@.len() == 2,
            r@[0].0@ == "scan_date"@,
            r@[0].1@ == "2024-01-15"@,
            r@[1].0@ == "vulnerabilities_found"@,
            r@[1].1@ == "12"@,
    {
        let mut data: Vec<(String, String)> = Vec::new();
        data.push(("scan_date".to_owned(), "2024-01-15".to_owned()));
        data.push(("vulnerabilities_found".to_owned(), "12".to_owned()));
        data
    }
}

} // verus!
