use vega::agent_instructions::{
    format_instructions_for_prompt, AgentInstructionLoader, AgentInstructions, DirectoryProbe,
    InstructionFileType,
};

fn probe(directory: &str, has_vega: bool, has_agents: bool) -> DirectoryProbe {
    DirectoryProbe { directory: directory.to_string(), has_vega, has_agents }
}

#[test]
fn test_instruction_file_type_filename() {
    assert_eq!(InstructionFileType::Agents.filename(), "AGENTS.md");
    assert_eq!(InstructionFileType::Vega.filename(), "VEGA.md");
}

#[test]
fn test_agent_instruction_loader_from_dir() {
    let loader = AgentInstructionLoader::from_dir("/tmp/vega-project");
    assert_eq!(loader.start_dir(), "/tmp/vega-project");
}

#[test]
fn test_discover_instructions_no_files() {
    let loader = AgentInstructionLoader::from_dir("/tmp/vega-project");
    let probes = vec![probe("/tmp/vega-project", false, false), probe("/tmp", false, false)];
    assert!(loader.discover_instructions(&probes).is_none());
    assert!(loader.discover_instructions(&Vec::new()).is_none());
}

#[test]
fn test_discover_instructions_vega_md() {
    let loader = AgentInstructionLoader::from_dir("/tmp/vega-project");
    let probes = vec![probe("/tmp/vega-project", true, false)];
    assert_eq!(loader.discover_instructions(&probes), Some((0, InstructionFileType::Vega)));
}

#[test]
fn test_discover_instructions_agents_md() {
    let loader = AgentInstructionLoader::from_dir("/tmp/vega-project");
    let probes = vec![probe("/tmp/vega-project", false, true)];
    assert_eq!(loader.discover_instructions(&probes), Some((0, InstructionFileType::Agents)));
}

#[test]
fn test_discover_instructions_priority() {
    let loader = AgentInstructionLoader::from_dir("/tmp/vega-project");
    let probes = vec![probe("/tmp/vega-project", true, true)];
    assert_eq!(loader.discover_instructions(&probes), Some((0, InstructionFileType::Vega)));
}

#[test]
fn test_discover_instructions_parent_directory() {
    let loader = AgentInstructionLoader::from_dir("/tmp/vega-project/subdir");
    let probes = vec![
        probe("/tmp/vega-project/subdir", false, false),
        probe("/tmp/vega-project", false, true),
        probe("/tmp", true, false),
    ];
    assert_eq!(loader.discover_instructions(&probes), Some((1, InstructionFileType::Agents)));
}

#[test]
fn test_load_from_path() {
    let loader = AgentInstructionLoader::from_dir("/tmp/vega-project");
    let result =
        loader.load_from_path("/tmp/vega-project/VEGA.md", "# Custom Vega Instructions".to_string());
    assert_eq!(result.file_type, InstructionFileType::Vega);
    assert_eq!(result.source_path, "/tmp/vega-project/VEGA.md");
    assert!(result.content.contains("Custom Vega Instructions"));
}

#[test]
fn test_load_empty_file() {
    let loader = AgentInstructionLoader::from_dir("/tmp/vega-project");
    let result = loader.load_from_path("/tmp/vega-project/AGENTS.md", String::new());
    assert_eq!(result.content, "");
    assert_eq!(result.file_type, InstructionFileType::Agents);
}

#[test]
fn load_from_path_goes_by_the_file_name_only() {
    let loader = AgentInstructionLoader::from_dir(".");
    assert_eq!(
        loader.load_from_path("notes/VEGA.md/other.txt", String::new()).file_type,
        InstructionFileType::Agents
    );
    assert_eq!(loader.load_from_path("VEGA.md", String::new()).file_type, InstructionFileType::Vega);
    assert_eq!(
        loader.load_from_path("dir/vega.md", String::new()).file_type,
        InstructionFileType::Agents
    );
    assert_eq!(loader.load_from_path("..", String::new()).file_type, InstructionFileType::Agents);
}

#[test]
fn test_format_instructions_for_prompt() {
    let vega_path = "/tmp/vega-project/VEGA.md".to_string();
    let instructions = AgentInstructions {
        content: "# Test Instructions\n\nThis is a test.".to_string(),
        source_path: vega_path.clone(),
        file_type: InstructionFileType::Vega,
    };

    let formatted = format_instructions_for_prompt(&instructions);

    assert!(formatted.contains("Agent Instructions"));
    assert!(formatted.contains(&vega_path));
    assert!(formatted.contains("Test Instructions"));
    assert!(formatted.contains("This is a test."));
    assert!(formatted.ends_with('\n'));
}

#[test]
fn format_instructions_exact_text() {
    let with_feed = AgentInstructions {
        content: "be kind\n".to_string(),
        source_path: "A.md".to_string(),
        file_type: InstructionFileType::Agents,
    };
    assert_eq!(
        format_instructions_for_prompt(&with_feed),
        "\n# Agent Instructions (from A.md)\n\nbe kind\n"
    );
    let without_feed = AgentInstructions {
        content: "be kind".to_string(),
        source_path: "A.md".to_string(),
        file_type: InstructionFileType::Agents,
    };
    assert_eq!(
        format_instructions_for_prompt(&without_feed),
        "\n# Agent Instructions (from A.md)\n\nbe kind\n"
    );
    let empty = AgentInstructions {
        content: String::new(),
        source_path: "A.md".to_string(),
        file_type: InstructionFileType::Agents,
    };
    assert_eq!(format_instructions_for_prompt(&empty), "\n# Agent Instructions (from A.md)\n\n");
}

#[test]
fn file_names_stand_for_their_kind() {
    assert_eq!(InstructionFileType::of_file_name(Some("VEGA.md")), InstructionFileType::Vega);
    assert_eq!(InstructionFileType::of_file_name(Some("AGENTS.md")), InstructionFileType::Agents);
    assert_eq!(InstructionFileType::of_file_name(Some("vega.md")), InstructionFileType::Agents);
    assert_eq!(InstructionFileType::of_file_name(Some("notes.txt")), InstructionFileType::Agents);
    assert_eq!(InstructionFileType::of_file_name(None), InstructionFileType::Agents);
}
