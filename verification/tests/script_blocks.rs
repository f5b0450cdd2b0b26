use busb::os::TargetOs;
use busb::script::{
    directory_script, end_boilerplate, executable_boiler, make_file_boilerplate,
    single_file_script, start_boilerplate, SourceFile,
};

#[test]
fn windows_start_plain() {
    assert_eq!(
        start_boilerplate(TargetOs::Windows, false, "out.txt"),
        "WINDOWS\nDELAY 400\nSTRING powershell\nDELAY 200\nENTER\nDELAY 1000\n"
    );
}

#[test]
fn windows_start_with_directory() {
    assert_eq!(
        start_boilerplate(TargetOs::Windows, true, "payload"),
        "WINDOWS\nDELAY 400\nSTRING powershell\nDELAY 200\nENTER\nDELAY 1000\n\
         STRINGLN New-Item -Path \"$HOME\\payload\" -Type Directory\n"
    );
}

#[test]
fn unix_start_plain() {
    assert_eq!(
        start_boilerplate(TargetOs::Unix, false, "out.txt"),
        "GUI\nDELAY 400\nSTRING terminal\nDELAY 200\nENTER\nDELAY 400\n"
    );
}

#[test]
fn unix_start_with_directory() {
    assert_eq!(
        start_boilerplate(TargetOs::Unix, true, "payload"),
        "GUI\nDELAY 400\nSTRING terminal\nDELAY 200\nENTER\nDELAY 400\nSTRINGLN mkdir payload\n"
    );
}

#[test]
fn closing_lines() {
    assert_eq!(
        end_boilerplate(TargetOs::Windows),
        "STRINGLN end or progrman! Do what you want now...\n"
    );
    assert_eq!(
        end_boilerplate(TargetOs::Unix),
        "STRINGLN end of programn! Do other stuff here if you want now...\n"
    );
}

#[test]
fn windows_execute_block() {
    assert_eq!(
        executable_boiler(TargetOs::Windows, "anything.ps1"),
        "DELAY 100\nSTRINGLN Set-ExecutionPolicy RemoteSigned -Scope CurrentUser\nDELAY 200\n\
         STRINGLN $code = Get-Content .\\{YOUR_SOURCE_FILE} -Raw\nDELAY 400\n\
         STRINGLN Invoke-Expression $code\n"
    );
}

#[test]
fn unix_execute_block() {
    assert_eq!(
        executable_boiler(TargetOs::Unix, "run.sh"),
        "STRINGLN chmod +x run.sh\nDELAY 100\nSTRINGLN ./run.sh\n"
    );
}

#[test]
fn windows_file_block() {
    let lines = vec![String::from("echo hi"), String::from("pwd")];
    assert_eq!(
        make_file_boilerplate(TargetOs::Windows, "dir/f.txt", &lines, "out", "linux"),
        "STRINGLN $file = @\"\nSTRINGLN echo hi\nSTRINGLN pwd\nSTRINGLN \"@\n\
         STRINGLN Set-Content -Path $HOME\\out\\dir\\f.txt -Value $file\n"
    );
}

#[test]
fn unix_file_block() {
    let lines = vec![String::from("echo hi"), String::from("pwd")];
    assert_eq!(
        make_file_boilerplate(TargetOs::Unix, "dir\\f.sh", &lines, "out", "linux"),
        "STRINGLN cat > out/dir/f.sh\nSTRINGLN echo hi\nSTRINGLN pwd\nCTRL d\n"
    );
}

#[test]
fn empty_file_block() {
    let lines: Vec<String> = Vec::new();
    assert_eq!(
        make_file_boilerplate(TargetOs::Unix, "f", &lines, "out", "linux"),
        "STRINGLN cat > out/f\nCTRL d\n"
    );
}

#[test]
fn whole_single_file_script() {
    let source = SourceFile {
        path: String::from("hello.sh"),
        lines: vec![String::from("echo hello")],
    };
    assert_eq!(
        single_file_script(TargetOs::Unix, &source, "dest", "linux"),
        "GUI\nDELAY 400\nSTRING terminal\nDELAY 200\nENTER\nDELAY 400\n\
         STRINGLN cat > dest/hello.sh\nSTRINGLN echo hello\nCTRL d\n\
         STRINGLN end of programn! Do other stuff here if you want now...\n"
    );
}

#[test]
fn whole_directory_script() {
    let files = vec![
        SourceFile { path: String::from("d/a.txt"), lines: vec![String::from("one")] },
        SourceFile { path: String::from("d/b.txt"), lines: vec![String::from("two")] },
    ];
    assert_eq!(
        directory_script(TargetOs::Windows, &files, "pay", "linux"),
        "WINDOWS\nDELAY 400\nSTRING powershell\nDELAY 200\nENTER\nDELAY 1000\n\
         STRINGLN New-Item -Path \"$HOME\\pay\" -Type Directory\n\
         STRINGLN $file = @\"\nSTRINGLN one\nSTRINGLN \"@\n\
         STRINGLN Set-Content -Path $HOME\\pay\\d\\a.txt -Value $file\n\
         STRINGLN $file = @\"\nSTRINGLN two\nSTRINGLN \"@\n\
         STRINGLN Set-Content -Path $HOME\\pay\\d\\b.txt -Value $file\n\
         STRINGLN end or progrman! Do what you want now...\n"
    );
}

#[test]
fn empty_directory_script() {
    let files: Vec<SourceFile> = Vec::new();
    assert_eq!(
        directory_script(TargetOs::Unix, &files, "pay", "linux"),
        "GUI\nDELAY 400\nSTRING terminal\nDELAY 200\nENTER\nDELAY 400\nSTRINGLN mkdir pay\n\
         STRINGLN end of programn! Do other stuff here if you want now...\n"
    );
}
