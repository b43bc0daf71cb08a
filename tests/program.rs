use renderer::program::{
    diagnostic, Command, Event, ProgramError, ProgramLinker, ShaderKind, GL_FRAGMENT_SHADER,
    GL_VERTEX_SHADER,
};

/// A stand-in driver: names objects from 10 on, and answers statuses and
/// logs as told.
struct Driver {
    vertex_ok: bool,
    fragment_ok: bool,
    link_ok: bool,
    log: Option<String>,
    next_name: u32,
    commands: Vec<Command>,
}

fn run(vertex_ok: bool, fragment_ok: bool, link_ok: bool, log: Option<&str>) -> (Vec<Command>, Result<u32, ProgramError>) {
    let mut d = Driver {
        vertex_ok,
        fragment_ok,
        link_ok,
        log: log.map(|s| s.to_string()),
        next_name: 10,
        commands: Vec::new(),
    };
    let mut linker = ProgramLinker::new();
    let mut event = Event::Start;
    let mut kinds = std::collections::HashMap::new();
    loop {
        assert!(linker.accepts(&event));
        let cmd = linker.step(event);
        d.commands.push(cmd);
        event = match cmd {
            Command::CreateProgram => {
                d.next_name += 1;
                Event::Created(d.next_name)
            }
            Command::CreateShader(kind) => {
                d.next_name += 1;
                kinds.insert(d.next_name, kind);
                Event::Created(d.next_name)
            }
            Command::QueryCompileStatus(s) => Event::Status(match kinds[&s] {
                ShaderKind::Vertex => d.vertex_ok,
                ShaderKind::Fragment => d.fragment_ok,
            }),
            Command::QueryLinkStatus(_) => Event::Status(d.link_ok),
            Command::QueryShaderLog(_) | Command::QueryProgramLog(_) => Event::Log(d.log.clone()),
            Command::Finish => break,
            _ => Event::Done,
        };
    }
    assert!(linker.is_done());
    (d.commands, linker.into_outcome())
}

fn deletes(commands: &[Command], kind: ShaderKind) -> usize {
    commands
        .iter()
        .filter(|c| matches!(c, Command::DeleteShader { kind: k, .. } if *k == kind))
        .count()
}

#[test]
fn successful_link_returns_program_and_deletes_stages_once() {
    let (commands, outcome) = run(true, true, true, None);
    assert_eq!(outcome, Ok(11));
    assert_eq!(
        commands,
        vec![
            Command::CreateProgram,
            Command::CreateShader(ShaderKind::Vertex),
            Command::ShaderSource { kind: ShaderKind::Vertex, shader: 12 },
            Command::CompileShader(12),
            Command::QueryCompileStatus(12),
            Command::CreateShader(ShaderKind::Fragment),
            Command::ShaderSource { kind: ShaderKind::Fragment, shader: 13 },
            Command::CompileShader(13),
            Command::QueryCompileStatus(13),
            Command::AttachShader { program: 11, shader: 12 },
            Command::AttachShader { program: 11, shader: 13 },
            Command::LinkProgram(11),
            Command::DeleteShader { kind: ShaderKind::Vertex, shader: 12 },
            Command::DeleteShader { kind: ShaderKind::Fragment, shader: 13 },
            Command::QueryLinkStatus(11),
            Command::Finish,
        ]
    );
}

#[test]
fn failed_link_still_deletes_stages_once() {
    let (commands, outcome) = run(true, true, false, Some("undefined symbol"));
    assert_eq!(outcome, Err(ProgramError::Link { log: "undefined symbol".to_string() }));
    assert_eq!(deletes(&commands, ShaderKind::Vertex), 1);
    assert_eq!(deletes(&commands, ShaderKind::Fragment), 1);
    let link = commands.iter().position(|c| matches!(c, Command::LinkProgram(_))).unwrap();
    let status = commands.iter().position(|c| matches!(c, Command::QueryLinkStatus(_))).unwrap();
    for (i, c) in commands.iter().enumerate() {
        if matches!(c, Command::DeleteShader { .. }) {
            assert!(link < i && i < status);
        }
    }
}

#[test]
fn empty_compile_log_gives_fallback_text() {
    let (commands, outcome) = run(false, true, true, Some(""));
    assert_eq!(
        outcome,
        Err(ProgramError::Compile { kind: ShaderKind::Vertex, log: "Unknown error".to_string() })
    );
    assert_eq!(deletes(&commands, ShaderKind::Vertex), 1);
    assert_eq!(deletes(&commands, ShaderKind::Fragment), 0);
    assert!(!commands.contains(&Command::CreateShader(ShaderKind::Fragment)));
}

#[test]
fn failed_fragment_stage_deletes_both_stages() {
    let (commands, outcome) = run(true, false, true, Some("syntax error"));
    assert_eq!(
        outcome,
        Err(ProgramError::Compile { kind: ShaderKind::Fragment, log: "syntax error".to_string() })
    );
    assert_eq!(deletes(&commands, ShaderKind::Vertex), 1);
    assert_eq!(deletes(&commands, ShaderKind::Fragment), 1);
    assert!(!commands.iter().any(|c| matches!(c, Command::LinkProgram(_))));
}

#[test]
fn missing_link_log_gives_fallback_text() {
    let (_, outcome) = run(true, true, false, None);
    assert_eq!(outcome, Err(ProgramError::Link { log: "Unknown error".to_string() }));
}

#[test]
fn diagnostic_fallback() {
    assert_eq!(diagnostic(None), "Unknown error");
    assert_eq!(diagnostic(Some(String::new())), "Unknown error");
    assert_eq!(diagnostic(Some("line 3".to_string())), "line 3");
}

#[test]
fn answers_out_of_turn_are_refused() {
    let linker = ProgramLinker::new();
    assert!(linker.accepts(&Event::Start));
    assert!(!linker.accepts(&Event::Done));
    assert!(!linker.is_done());
}

#[test]
fn stage_enums() {
    assert_eq!(ShaderKind::Vertex.gl_enum(), GL_VERTEX_SHADER);
    assert_eq!(ShaderKind::Fragment.gl_enum(), GL_FRAGMENT_SHADER);
    assert_eq!(GL_VERTEX_SHADER, 0x8B31);
    assert_eq!(GL_FRAGMENT_SHADER, 0x8B30);
}
