use vstd::prelude::*;
use vstd::string::*;

verus! {

/// The file formats a map can be stored in.
#[derive(Debug, Clone, Copy, PartialEq, Eq, Structural)]
pub enum FileFormat {
    /// One structured document that lists the tiles.
    Json,
    /// A table with one row per tile.
    Csv,
}

impl Default for FileFormat {
    fn default() -> (format: Self)
        ensures
            format == FileFormat::Csv,
    {
        FileFormat::Csv
    }
}

impl FileFormat {
    /// The name of the format, as it is shown to a user.
    pub open spec fn name_spec(self) -> Seq<char> {
        match self {
            FileFormat::Json => "Json"@,
            FileFormat::Csv => "Csv"@,
        }
    }

    /// The ending of the files that hold this format, without the dot.
    pub open spec fn extension_spec(self) -> Seq<char> {
        match self {
            FileFormat::Json => "json"@,
            FileFormat::Csv => "csv"@,
        }
    }

    /// The name of the format, as it is shown to a user.
    pub fn name(&self) -> (text: String)
        ensures
            text@ == self.name_spec(),
    {
        match self {
            FileFormat::Json => String::from_str("Json"),
            FileFormat::Csv => String::from_str("Csv"),
        }
    }

    /// The ending of the files that hold this format, without the dot.
    pub fn extension(&self) -> (ending: &'static str)
        ensures
            ending@ == self.extension_spec(),
    {
        match self {
            FileFormat::Json => "json",
            FileFormat::Csv => "csv",
        }
    }

    /// The path of the file that holds a map in this format: the map's
    /// source path, a dot and the format's ending.
    pub open spec fn file_path_spec(self, source_path: Seq<char>) -> Seq<char> {
        source_path + "."@ + self.extension_spec()
    }

    /// The path of the file that holds a map in this format.
    pub fn file_path(&self, source_path: &str) -> (path: String)
        ensures
            path@ == self.file_path_spec(source_path@),
    {
        let mut path = String::from_str(source_path);
        path.append(".");
        path.append(self.extension());
        path
    }
}

} // verus!
