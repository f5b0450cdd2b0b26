//! The templated command blocks that make up a payload script: the
//! opening that brings up a shell on the target, the block that types
//! out one source file and saves it, the closing line, and the optional
//! block that runs the reproduced file.

use vstd::prelude::*;
use crate::os::TargetOs;
use crate::path::{adapt_path, spec_adapt_path};

verus! {

/// The commands every script opens with: bring up PowerShell on a
/// Windows target or a terminal on a Unix one, and, when the payload
/// recreates a whole directory, make the destination directory first.
pub open spec fn spec_start_boilerplate(target_os: TargetOs, is_dir: bool, dest: Seq<char>) -> Seq<char> {
    match target_os {
        TargetOs::Windows => "WINDOWS\nDELAY 400\nSTRING powershell\nDELAY 200\nENTER\nDELAY 1000\n"@
            + if is_dir {
                "STRINGLN New-Item -Path \"$HOME\\"@ + dest + "\" -Type Directory\n"@
            } else {
                Seq::<char>::empty()
            },
        TargetOs::Unix => "GUI\nDELAY 400\nSTRING terminal\nDELAY 200\nENTER\nDELAY 400\n"@
            + if is_dir {
                "STRINGLN mkdir "@ + dest + "\n"@
            } else {
                Seq::<char>::empty()
            },
    }
}

/// Emits the opening command block for `target_os`; with `is_dir` set
/// it also creates the destination directory `dest` on the target.
pub fn start_boilerplate(target_os: TargetOs, is_dir: bool, dest: &str) -> (r: String)
    ensures
        r@ == spec_start_boilerplate(target_os, is_dir, dest@),
{
    let mut out: String;
    match target_os {
        TargetOs::Windows => {
            out = String::from_str("WINDOWS\nDELAY 400\nSTRING powershell\nDELAY 200\nENTER\nDELAY 1000\n");
            if is_dir {
                out.append("STRINGLN New-Item -Path \"$HOME\\");
                out.append(dest);
                out.append("\" -Type Directory\n");
            }
        },
        TargetOs::Unix => {
            out = String::from_str("GUI\nDELAY 400\nSTRING terminal\nDELAY 200\nENTER\nDELAY 400\n");
            if is_dir {
                out.append("STRINGLN mkdir ");
                out.append(dest);
                out.append("\n");
            }
        },
    }
    proof {
        assert(out@ =~= spec_start_boilerplate(target_os, is_dir, dest@));
    }
    out
}

/// The one line every script closes with.
pub open spec fn spec_end_boilerplate(target_os: TargetOs) -> Seq<char> {
    match target_os {
        TargetOs::Windows => "STRINGLN end or progrman! Do what you want now...\n"@,
        TargetOs::Unix => "STRINGLN end of programn! Do other stuff here if you want now...\n"@,
    }
}

/// Emits the closing line of a script for `target_os`.
pub fn end_boilerplate(target_os: TargetOs) -> (r: String)
    ensures
        r@ == spec_end_boilerplate(target_os),
{
    match target_os {
        TargetOs::Windows => String::from_str("STRINGLN end or progrman! Do what you want now...\n"),
        TargetOs::Unix => String::from_str("STRINGLN end of programn! Do other stuff here if you want now...\n"),
    }
}

/// The commands that run the reproduced file on the target.  The
/// Windows block leaves a `{YOUR_SOURCE_FILE}` placeholder for the
/// operator to fill in; the Unix block marks `source_file` executable
/// and runs it from the working directory.
pub open spec fn spec_executable_boiler(target_os: TargetOs, source_file: Seq<char>) -> Seq<char> {
    match target_os {
        TargetOs::Windows =>
            "DELAY 100\nSTRINGLN Set-ExecutionPolicy RemoteSigned -Scope CurrentUser\nDELAY 200\nSTRINGLN $code = Get-Content .\\{YOUR_SOURCE_FILE} -Raw\nDELAY 400\nSTRINGLN Invoke-Expression $code\n"@,
        TargetOs::Unix => "STRINGLN chmod +x "@ + source_file + "\nDELAY 100\nSTRINGLN ./"@ + source_file
            + "\n"@,
    }
}

/// Emits the command block that executes the reproduced file.
pub fn executable_boiler(target_os: TargetOs, source_file: &str) -> (r: String)
    ensures
        r@ == spec_executable_boiler(target_os, source_file@),
{
    match target_os {
        TargetOs::Windows => String::from_str(
            "DELAY 100\nSTRINGLN Set-ExecutionPolicy RemoteSigned -Scope CurrentUser\nDELAY 200\nSTRINGLN $code = Get-Content .\\{YOUR_SOURCE_FILE} -Raw\nDELAY 400\nSTRINGLN Invoke-Expression $code\n",
        ),
        TargetOs::Unix => {
            let mut out = String::from_str("STRINGLN chmod +x ");
            out.append(source_file);
            out.append("\nDELAY 100\nSTRINGLN ./");
            out.append(source_file);
            out.append("\n");
            proof {
                assert(out@ =~= spec_executable_boiler(target_os, source_file@));
            }
            out
        },
    }
}

/// The text that types out the first `n` lines of a file: each line
/// prefixed with `STRINGLN ` and closed with a newline, in order.
pub open spec fn spec_content_upto(lines: Seq<Seq<char>>, n: int) -> Seq<char>
    decreases n,
{
    if n <= 0 {
        Seq::<char>::empty()
    } else {
        spec_content_upto(lines, n - 1) + "STRINGLN "@ + lines[n - 1] + "\n"@
    }
}

/// The text that types out every line of a file.
pub open spec fn spec_content_lines(lines: Seq<Seq<char>>) -> Seq<char> {
    spec_content_upto(lines, lines.len() as int)
}

/// The command block that recreates one source file on the target.  On
/// Windows the file's lines go into a PowerShell here-string that
/// `Set-Content` then saves under `$HOME\dest\path`; on Unix they are
/// piped into `cat > dest/path` and closed with CTRL-d.  The path is
/// first rewritten for the target's separator convention.
pub open spec fn spec_make_file_boilerplate(
    target_os: TargetOs,
    path: Seq<char>,
    lines: Seq<Seq<char>>,
    dest_folder: Seq<char>,
    host_os: Seq<char>,
) -> Seq<char> {
    let mod_path = spec_adapt_path(path, target_os, host_os);
    match target_os {
        TargetOs::Windows => "STRINGLN $file = @\"\n"@ + spec_content_lines(lines)
            + "STRINGLN \"@\nSTRINGLN Set-Content -Path $HOME\\"@ + dest_folder + "\\"@ + mod_path
            + " -Value $file\n"@,
        TargetOs::Unix => "STRINGLN cat > "@ + dest_folder + "/"@ + mod_path + "\n"@
            + spec_content_lines(lines) + "CTRL d\n"@,
    }
}

/// Emits the command block that recreates one source file, whose text
/// stands in `lines`, under the destination folder on the target.
/// `host_os` is the name of the operating system the tool runs on, as
/// the path rewrite needs it.
pub fn make_file_boilerplate(
    target_os: TargetOs,
    source_path: &str,
    lines: &Vec<String>,
    dest_folder: &str,
    host_os: &str,
) -> (r: String)
    ensures
        r@ == spec_make_file_boilerplate(target_os, source_path@, lines.deep_view(), dest_folder@, host_os@),
{
    let mod_path = adapt_path(source_path, target_os, host_os);
    let mut out: String;
    match target_os {
        TargetOs::Windows => {
            out = String::from_str("STRINGLN $file = @\"\n");
        },
        TargetOs::Unix => {
            out = String::from_str("STRINGLN cat > ");
            out.append(dest_folder);
            out.append("/");
            out.append(mod_path.as_str());
            out.append("\n");
        },
    }
    let ghost prefix = out@;
    let n = lines.len();
    for i in 0..n
        invariant
            n == lines.len(),
            out@ == prefix + spec_content_upto(lines.deep_view(), i as int),
    {
        out.append("STRINGLN ");
        out.append(lines[i].as_str());
        out.append("\n");
        proof {
            assert(out@ =~= prefix + spec_content_upto(lines.deep_view(), i + 1 as int));
        }
    }
    match target_os {
        TargetOs::Windows => {
            out.append("STRINGLN \"@\nSTRINGLN Set-Content -Path $HOME\\");
            out.append(dest_folder);
            out.append("\\");
            out.append(mod_path.as_str());
            out.append(" -Value $file\n");
        },
        TargetOs::Unix => {
            out.append("CTRL d\n");
        },
    }
    proof {
        assert(out@ =~= spec_make_file_boilerplate(
            target_os,
            source_path@,
            lines.deep_view(),
            dest_folder@,
            host_os@,
        ));
    }
    out
}

/// One source file as the generator sees it: where it was found, and
/// its text as a sequence of lines without their line endings.
pub struct SourceFile {
    pub path: String,
    pub lines: Vec<String>,
}

/// The mathematical shape of a [`SourceFile`].
pub struct SourceFileModel {
    pub path: Seq<char>,
    pub lines: Seq<Seq<char>>,
}

impl View for SourceFile {
    type V = SourceFileModel;

    open spec fn view(&self) -> SourceFileModel {
        SourceFileModel { path: self.path@, lines: self.lines.deep_view() }
    }
}

impl DeepView for SourceFile {
    type V = SourceFileModel;

    open spec fn deep_view(&self) -> SourceFileModel {
        self.view()
    }
}

/// A complete script that recreates one file: the opening block, the
/// block that types the file out, and the closing line.
pub open spec fn spec_single_file_script(
    target_os: TargetOs,
    path: Seq<char>,
    lines: Seq<Seq<char>>,
    destination: Seq<char>,
    host_os: Seq<char>,
) -> Seq<char> {
    spec_start_boilerplate(target_os, false, destination)
        + spec_make_file_boilerplate(target_os, path, lines, destination, host_os)
        + spec_end_boilerplate(target_os)
}

/// Emits the whole script for a single source file.
pub fn single_file_script(
    target_os: TargetOs,
    source: &SourceFile,
    destination: &str,
    host_os: &str,
) -> (r: String)
    ensures
        r@ == spec_single_file_script(target_os, source@.path, source@.lines, destination@, host_os@),
{
    let mut out = start_boilerplate(target_os, false, destination);
    let body = make_file_boilerplate(
        target_os,
        source.path.as_str(),
        &source.lines,
        destination,
        host_os,
    );
    out.append(body.as_str());
    let closing = end_boilerplate(target_os);
    out.append(closing.as_str());
    proof {
        assert(out@ =~= spec_single_file_script(
            target_os,
            source@.path,
            source@.lines,
            destination@,
            host_os@,
        ));
    }
    out
}

/// The blocks that recreate the first `n` of the given files, in order.
pub open spec fn spec_file_blocks_upto(
    target_os: TargetOs,
    files: Seq<SourceFileModel>,
    destination: Seq<char>,
    host_os: Seq<char>,
    n: int,
) -> Seq<char>
    decreases n,
{
    if n <= 0 {
        Seq::<char>::empty()
    } else {
        spec_file_blocks_upto(target_os, files, destination, host_os, n - 1)
            + spec_make_file_boilerplate(
            target_os,
            files[n - 1].path,
            files[n - 1].lines,
            destination,
            host_os,
        )
    }
}

/// A complete script that recreates a whole directory of files in one
/// pass: the opening block also makes the destination directory, then
/// every file gets its block, and the closing line ends the script.
pub open spec fn spec_directory_script(
    target_os: TargetOs,
    files: Seq<SourceFileModel>,
    destination: Seq<char>,
    host_os: Seq<char>,
) -> Seq<char> {
    spec_start_boilerplate(target_os, true, destination)
        + spec_file_blocks_upto(target_os, files, destination, host_os, files.len() as int)
        + spec_end_boilerplate(target_os)
}

/// Emits the whole script that recreates every given file under the
/// destination directory on the target.
pub fn directory_script(
    target_os: TargetOs,
    files: &Vec<SourceFile>,
    destination: &str,
    host_os: &str,
) -> (r: String)
    ensures
        r@ == spec_directory_script(target_os, files.deep_view(), destination@, host_os@),
{
    let mut out = start_boilerplate(target_os, true, destination);
    let ghost prefix = out@;
    let n = files.len();
    for i in 0..n
        invariant
            n == files.len(),
            out@ == prefix + spec_file_blocks_upto(
                target_os,
                files.deep_view(),
                destination@,
                host_os@,
                i as int,
            ),
    {
        let body = make_file_boilerplate(
            target_os,
            files[i].path.as_str(),
            &files[i].lines,
            destination,
            host_os,
        );
        out.append(body.as_str());
        proof {
            assert(out@ =~= prefix + spec_file_blocks_upto(
                target_os,
                files.deep_view(),
                destination@,
                host_os@,
                i + 1 as int,
            ));
        }
    }
    let closing = end_boilerplate(target_os);
    out.append(closing.as_str());
    proof {
        assert(out@ =~= spec_directory_script(target_os, files.deep_view(), destination@, host_os@));
    }
    out
}

} // verus!
