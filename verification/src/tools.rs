use vstd::prelude::*;

verus! {

/// Relies on `chrono::Local::now` and `DateTime::format`: the current local
/// time rendered as `%Y-%m-%d %I:%M:%S %p`. The result depends on the clock
/// and the machine's time zone, so nothing is promised of it.
#[verifier::external_body]
fn local_time_formatted() -> String {
    chrono::Local::now().format("%Y-%m-%d %I:%M:%S %p").to_string()
}

/// Agent tool that reports the current date and time.
pub struct GetDateAndTime {}

impl GetDateAndTime {
    /// The tool's name, as registered with the agent.
    pub fn name(&self) -> (r: String)
        ensures
            r@ == "Date"@,
    {
        String::from_str("Date")
    }

    /// The tool's description, as shown to the model.
    pub fn description(&self) -> (r: String)
        ensures
            r@
                == "This tool is used to fetch current date and time in 12-hour format. use it when user asks for current date or time "@,
    {
        String::from_str(
            "This tool is used to fetch current date and time in 12-hour format. use it when user asks for current date or time ",
        )
    }

    /// Runs the tool: the current local time in 12-hour format. The result
    /// follows the clock, so no more is stated of it.
    pub fn run(&self) -> (r: String) {
        local_time_formatted()
    }
}

/// Agent tool that extracts text from images; recognition itself is not
/// wired up, so the tool answers with its own name.
pub struct OCRTool {}

impl OCRTool {
    /// The tool's name, as registered with the agent.
    pub fn name(&self) -> (r: String)
        ensures
            r@ == "OCR"@,
    {
        String::from_str("OCR")
    }

    /// The tool's description, as shown to the model.
    pub fn description(&self) -> (r: String)
        ensures
            r@ == "This tool is used to extract text from images"@,
    {
        String::from_str("This tool is used to extract text from images")
    }

    /// Runs the tool.
    pub fn run(&self) -> (r: String)
        ensures
            r@ == "OCR"@,
    {
        String::from_str("OCR")
    }
}

} // verus!
