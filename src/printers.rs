//! Printers that share one check of their input and differ in their header.
use vstd::prelude::*;

verus! {

/// A printer turns non-empty data into a printed line that starts with its
/// own header; empty data is refused with `Data is empty`.
pub trait Printer {
    /// The text that each printed line starts with.
    spec fn header(&self) -> Seq<char>;

    fn print(&self, data: &str) -> (r: Result<String, &str>)
        ensures
            data@.len() == 0 ==> r is Err && r->Err_0@ == "Data is empty"@,
            data@.len() > 0 ==> r is Ok && r->Ok_0@ == self.header() + data@,
    ;

    /// Hands back non-empty data; refuses empty data.
    fn verify_data<'a>(&self, data: &'a str) -> (r: Result<&'a str, &str>)
        ensures
            data@.len() == 0 ==> r is Err && r->Err_0@ == "Data is empty"@,
            data@.len() > 0 ==> r is Ok && r->Ok_0@ == data@,
    {
        if data.is_empty() {
            return Err("Data is empty");
        }
        Ok(data)
    }
}

/// Prints for the web.
pub struct WebPrinter;

impl Printer for WebPrinter {
    open spec fn header(&self) -> Seq<char> {
        "Web Printer Printing: "@
    }

    fn print(&self, data: &str) -> (r: Result<String, &str>) {
        let valid_data = self.verify_data(data)?;
        let mut out = String::from_str("Web Printer Printing: ");
        out.append(valid_data);
        Ok(out)
    }
}

/// Prints into a PDF document.
pub struct PDFPrinter;

impl Printer for PDFPrinter {
    open spec fn header(&self) -> Seq<char> {
        "PDF Printer Printing: "@
    }

    fn print(&self, data: &str) -> (r: Result<String, &str>) {
        let valid_data = self.verify_data(data)?;
        let mut out = String::from_str("PDF Printer Printing: ");
        out.append(valid_data);
        Ok(out)
    }
}

/// Prints on paper.
pub struct PagePrinter;

impl Printer for PagePrinter {
    open spec fn header(&self) -> Seq<char> {
        "Page Printer Printing: "@
    }

    fn print(&self, data: &str) -> (r: Result<String, &str>) {
        let valid_data = self.verify_data(data)?;
        let mut out = String::from_str("Page Printer Printing: ");
        out.append(valid_data);
        Ok(out)
    }
}

} // verus!
