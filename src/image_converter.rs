//! The script that makes an image derivative: create the output folder,
//! resize to the preset's geometry, and copy the source's modification time.

use vstd::prelude::*;
use crate::processor::{line, output_path_of, prologue, CommandRunner, FileToBeProcessed};

verus! {

/// The lines that name the output folder, the input and the output.
pub open spec fn paths_preamble(relative: Seq<char>, input: Seq<char>, output: Seq<char>) -> Seq<char> {
    "mkdir -p \""@ + relative + "\"\ninput=\""@ + input + "\"\noutput=\""@ + output + "\""@
}

/// The paths preamble of `file` for a derivative with `extension`.
pub open spec fn preamble_of(file: FileToBeProcessed, extension: Seq<char>) -> Seq<char> {
    paths_preamble(
        file.spec_relative_path(),
        file.file.file_full_path@,
        output_path_of(file.spec_relative_path(), file.file.stem@, extension),
    )
}

/// Writes the paths preamble.
pub fn paths_preamble_text(relative: &str, input: &str, output: &str) -> (r: String)
    ensures
        r@ == paths_preamble(relative@, input@, output@),
{
    "mkdir -p \"".to_owned().concat(relative).concat("\"\ninput=\"").concat(input).concat(
        "\"\noutput=\"",
    ).concat(output).concat("\"")
}

/// The resize command of a preset: 400x400 for `thumbnail`, 1280x1280 for
/// any other.
pub open spec fn image_resize_line(preset: Seq<char>) -> Seq<char> {
    if preset == "thumbnail"@ {
        r#"convert "$input" -resize 400x400^ "$output""#@
    } else {
        r#"convert "$input" -resize 1280x1280^ "$output""#@
    }
}

/// Gives the output the modification time of the input.
pub open spec fn touch_line() -> Seq<char> {
    r#"touch -r "$input" "$output""#@
}

/// The whole script for an image.
pub open spec fn image_script_of(file: FileToBeProcessed) -> Seq<char> {
    prologue() + line(preamble_of(file, "jpg"@)) + line(image_resize_line(file.preset_name@)) + line(
        touch_line(),
    )
}

/// Makes the derivative of one image.
pub struct ImageConverter<'a> {
    pub file: &'a FileToBeProcessed,
}

impl<'a> ImageConverter<'a> {
    pub fn from(file: &'a FileToBeProcessed) -> (r: ImageConverter<'a>)
        ensures
            r.file == file,
    {
        ImageConverter { file }
    }

    /// The script to run, in the output folder.
    pub fn script(&self) -> (r: CommandRunner)
        ensures
            r.cwd@ == self.file.output_folder@,
            r.cmd@ == image_script_of(*self.file),
    {
        let paths = self.define_input_and_output_paths();
        let resize = if self.file.preset_name == "thumbnail".to_owned() {
            self.convert_image_thumbnail()
        } else {
            self.convert_image_preview()
        };
        CommandRunner::build(self.file.output_folder.as_str()).with(paths.as_str()).with(resize).with(
            self.copy_file_modification_date(),
        )
    }

    fn define_input_and_output_paths(&self) -> (r: String)
        ensures
            r@ == preamble_of(*self.file, "jpg"@),
    {
        let output_filepath = self.file.relative_path_with_file_stem_and_a_given_extension("jpg");
        let relative = self.file.relative_path();
        paths_preamble_text(relative.as_str(), self.file.file_full_path(), output_filepath.as_str())
    }

    fn convert_image_preview(&self) -> (r: &'static str)
        ensures
            r@ == r#"convert "$input" -resize 1280x1280^ "$output""#@,
    {
        r#"convert "$input" -resize 1280x1280^ "$output""#
    }

    fn convert_image_thumbnail(&self) -> (r: &'static str)
        ensures
            r@ == r#"convert "$input" -resize 400x400^ "$output""#@,
    {
        r#"convert "$input" -resize 400x400^ "$output""#
    }

    fn copy_file_modification_date(&self) -> (r: &'static str)
        ensures
            r@ == touch_line(),
    {
        r#"touch -r "$input" "$output""#
    }
}

} // verus!
