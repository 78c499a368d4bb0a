//! Commands for the external EXIF tool, and the reading of its answers.
use vstd::prelude::*;
use vstd::string::*;

use crate::error::ConvertError;
use crate::text::{decimal, decimal_of, trim_of, trimmed};

verus! {

/// The declarations that the motion-photo tags need, as a tool configuration
/// file: the `GCamera` XMP namespace and the Xiaomi EXIF tag.
pub const GCAMERA_CONFIG: &'static str = "%Image::ExifTool::UserDefined = (\n    'Image::ExifTool::Exif::Main' => {\n        0x8897 => { Name => 'XiaomiTag', Writable => 'int16u', WriteGroup => 'ExifIFD' },\n    },\n    'Image::ExifTool::XMP::Main' => {\n        GCamera => {\n            SubDirectory => {\n                TagTable => 'Image::ExifTool::UserDefined::GCamera',\n            },\n        },\n    },\n);\n%Image::ExifTool::UserDefined::GCamera = (\n    GROUPS => { 0 => 'XMP', 1 => 'XMP-GCamera', 2 => 'Image' },\n    NAMESPACE => { 'GCamera' => 'http://ns.google.com/photos/1.0/camera/' },\n    WRITABLE => 'string',\n    MicroVideo => { Writable => 'integer' },\n    MicroVideoVersion => { Writable => 'integer' },\n    MicroVideoOffset => { Writable => 'integer' },\n    MicroVideoPresentationTimestampUs => { Writable => 'integer' },\n);\n1;\n";

/// The text of each argument.
pub open spec fn arg_views(args: Seq<String>) -> Seq<Seq<char>> {
    args.map_values(|a: String| a@)
}

/// A program to run and its arguments.
pub struct Invocation {
    pub program: String,
    pub args: Vec<String>,
}

/// What a finished run of the tool reported.
pub struct ToolOutput {
    /// The process exited with success.
    pub success: bool,
    /// Its standard output, as text.
    pub stdout: String,
    /// Its standard error, as text.
    pub stderr: String,
}

/// The EXIF tool, found on the search path or at a given path.
pub struct ExifTool {
    pub path: Option<String>,
}

/// The arguments that read one tag of a file, printing its bare value.
pub open spec fn get_value_args(file: Seq<char>, key: Seq<char>) -> Seq<Seq<char>> {
    seq!["-"@ + key, "-s"@, "-s"@, "-s"@, file]
}

/// The arguments that copy the tags of `src` onto `dst` in place, clearing the
/// orientation.
pub open spec fn copy_meta_args(src: Seq<char>, dst: Seq<char>) -> Seq<Seq<char>> {
    seq!["-TagsFromFile"@, src, "-Orientation="@, "-overwrite_original"@, dst]
}

/// The arguments that mark `output` as a motion photo whose video is the last
/// `video_size` bytes.
pub open spec fn motion_photo_args(config: Seq<char>, video_size: nat, output: Seq<char>) -> Seq<
    Seq<char>,
> {
    seq![
        "-config"@,
        config,
        "-XMP-GCamera:MicroVideo=1"@,
        "-XMP-GCamera:MicroVideoVersion=1"@,
        "-XMP-GCamera:MicroVideoPresentationTimestampUs=1500000"@,
        "-XMP-GCamera:MicroVideoOffset="@ + decimal(video_size),
        "-XiaomiTag=1"@,
        "-overwrite_original"@,
        output,
    ]
}

/// The value that a tag read reports: the trimmed output, if not empty.
pub open spec fn reported_value(out: ToolOutput) -> Option<Seq<char>> {
    if trimmed(out.stdout@).len() == 0 {
        None
    } else {
        Some(trimmed(out.stdout@))
    }
}

/// A failed run is a tool error carrying its stderr.
pub open spec fn is_tool_error<T>(r: Result<T, ConvertError>, out: ToolOutput) -> bool {
    match r {
        Err(ConvertError::Tool(e)) => e@ == out.stderr@,
        _ => false,
    }
}

impl ExifTool {
    /// The tool found on the search path.
    pub fn new() -> (r: ExifTool)
        ensures
            r.path is None,
    {
        ExifTool { path: None }
    }

    /// The tool at `path`.
    pub fn with_path(path: String) -> (r: ExifTool)
        ensures
            r.path == Some(path),
    {
        ExifTool { path: Some(path) }
    }

    /// The program that is run.
    pub open spec fn program_spec(&self) -> Seq<char> {
        match self.path {
            Some(p) => p@,
            None => "exiftool"@,
        }
    }

    /// The program that is run: the given path, else `exiftool`.
    pub fn program(&self) -> (r: String)
        ensures
            r@ == self.program_spec(),
    {
        match &self.path {
            Some(p) => p.clone(),
            None => "exiftool".to_owned(),
        }
    }

    /// The run that reads the tag `key` of `file`.
    pub fn get_value_invocation(&self, file: &str, key: &str) -> (r: Invocation)
        ensures
            r.program@ == self.program_spec(),
            arg_views(r.args@) == get_value_args(file@, key@),
    {
        let mut flag = "-".to_owned();
        flag.append(key);
        let mut args: Vec<String> = Vec::new();
        args.push(flag);
        args.push("-s".to_owned());
        args.push("-s".to_owned());
        args.push("-s".to_owned());
        args.push(file.to_owned());
        assert(arg_views(args@) =~= get_value_args(file@, key@));
        Invocation { program: self.program(), args }
    }

    /// The tag value that a read reported: `None` when it printed nothing but
    /// white space, and the tool's error when it failed.
    pub fn get_value(output: &ToolOutput) -> (r: Result<Option<String>, ConvertError>)
        ensures
            !output.success ==> is_tool_error(r, *output),
            output.success ==> (r matches Ok(v) && match v {
                Some(s) => reported_value(*output) == Some(s@),
                None => reported_value(*output) is None,
            }),
    {
        if !output.success {
            return Err(ConvertError::Tool(output.stderr.clone()));
        }
        let value = trim_of(output.stdout.as_str());
        if value.as_str().is_empty() {
            Ok(None)
        } else {
            Ok(Some(value))
        }
    }

    /// The run that copies the tags of `src` onto `dst`.
    pub fn copy_meta_invocation(&self, src: &str, dst: &str) -> (r: Invocation)
        ensures
            r.program@ == self.program_spec(),
            arg_views(r.args@) == copy_meta_args(src@, dst@),
    {
        let mut args: Vec<String> = Vec::new();
        args.push("-TagsFromFile".to_owned());
        args.push(src.to_owned());
        args.push("-Orientation=".to_owned());
        args.push("-overwrite_original".to_owned());
        args.push(dst.to_owned());
        assert(arg_views(args@) =~= copy_meta_args(src@, dst@));
        Invocation { program: self.program(), args }
    }

    /// The outcome of a tag copy: the tool's error when it failed.
    pub fn copy_meta(output: &ToolOutput) -> (r: Result<(), ConvertError>)
        ensures
            output.success <==> r is Ok,
            !output.success ==> is_tool_error(r, *output),
    {
        if output.success {
            Ok(())
        } else {
            Err(ConvertError::Tool(output.stderr.clone()))
        }
    }

    /// The run that writes the motion-photo tags onto `output`, with the
    /// namespace declared in the file `config`.
    pub fn motion_photo_invocation(&self, config: &str, video_size: u64, output: &str) -> (r:
        Invocation)
        ensures
            r.program@ == self.program_spec(),
            arg_views(r.args@) == motion_photo_args(config@, video_size as nat, output@),
    {
        let mut offset = "-XMP-GCamera:MicroVideoOffset=".to_owned();
        let size = decimal_of(video_size);
        offset.append(size.as_str());
        let mut args: Vec<String> = Vec::new();
        args.push("-config".to_owned());
        args.push(config.to_owned());
        args.push("-XMP-GCamera:MicroVideo=1".to_owned());
        args.push("-XMP-GCamera:MicroVideoVersion=1".to_owned());
        args.push("-XMP-GCamera:MicroVideoPresentationTimestampUs=1500000".to_owned());
        args.push(offset);
        args.push("-XiaomiTag=1".to_owned());
        args.push("-overwrite_original".to_owned());
        args.push(output.to_owned());
        assert(arg_views(args@) =~= motion_photo_args(config@, video_size as nat, output@));
        Invocation { program: self.program(), args }
    }
}

} // verus!
