use qchat::agent::{Agent, Agents, PermissionEvalResult, UseAwsSettings};
use qchat::aws_context::{AwsContext, account_id_is_valid, classify_account_id_error};
use qchat::execute_bash::ExecuteBash;
use qchat::message::ScalarValue;
use qchat::tools::Tool;
use qchat::use_aws::UseAws;

fn s(x: &str) -> String {
    x.to_string()
}

fn use_aws(service: &str, operation: &str) -> UseAws {
    UseAws {
        service_name: s(service),
        operation_name: s(operation),
        parameters: None,
        region: s("us-west-2"),
        profile_name: Some(s("default")),
        label: Some(s("")),
    }
}

#[test]
fn test_requires_acceptance() {
    let cmd = use_aws("ecs", "list-task-definitions");
    assert!(!cmd.requires_acceptance());
    let cmd = use_aws("lambda", "list-functions");
    assert!(!cmd.requires_acceptance());
    let cmd = use_aws("s3", "put-object");
    assert!(cmd.requires_acceptance());
}

#[test]
fn test_use_aws_deser() {
    let mut cmd = use_aws("s3", "put-object");
    cmd.parameters = Some(vec![
        (s("TableName"), ScalarValue::Str(s("table-name"))),
        (
            s("KeyConditionExpression"),
            ScalarValue::Str(s("PartitionKey = :pkValue")),
        ),
    ]);
    let params = cmd.cli_parameters().unwrap();
    assert!(
        params.iter().any(|p| p.0 == "--table-name" && p.1 == "table-name"),
        "not found in {:?}",
        params
    );
    assert!(
        params
            .iter()
            .any(|p| p.0 == "--key-condition-expression" && p.1 == "PartitionKey = :pkValue"),
        "not found in {:?}",
        params
    );
}

#[test]
fn test_requires_acceptance_with_actions_double_check_disabled() {
    // Read-only operations should not require acceptance
    let readonly_cmd = use_aws("ecs", "list-task-definitions");
    let get_cmd = use_aws("s3", "get-object");
    let describe_cmd = use_aws("ec2", "describe-instances");

    // Write operations should require acceptance
    let write_cmd = use_aws("s3", "put-object");
    let delete_cmd = use_aws("s3", "delete-object");

    assert!(!readonly_cmd.requires_acceptance());
    assert!(!get_cmd.requires_acceptance());
    assert!(!describe_cmd.requires_acceptance());
    assert!(write_cmd.requires_acceptance());
    assert!(delete_cmd.requires_acceptance());
}

#[test]
fn test_requires_acceptance_for_readonly_commands() {
    let cmds = &[
        // Safe commands
        ("ls ~", false),
        ("ls -al ~", false),
        ("pwd", false),
        ("echo 'Hello, world!'", false),
        ("which aws", false),
        // Potentially dangerous readonly commands
        ("echo hi > myimportantfile", true),
        ("ls -al >myimportantfile", true),
        ("echo hi 2> myimportantfile", true),
        ("echo hi >> myimportantfile", true),
        ("echo $(rm myimportantfile)", true),
        ("echo `rm myimportantfile`", true),
        ("echo hello && rm myimportantfile", true),
        ("echo hello&&rm myimportantfile", true),
        ("ls nonexistantpath || rm myimportantfile", true),
        ("echo myimportantfile | xargs rm", true),
        ("echo myimportantfile|args rm", true),
        ("echo <(rm myimportantfile)", true),
        ("cat <<< 'some string here' > myimportantfile", true),
        ("echo '\n#!/usr/bin/env bash\necho hello\n' > myscript.sh", true),
        ("cat <<EOF > myimportantfile\nhello world\nEOF", true),
        // Safe piped commands
        ("find . -name '*.rs' | grep main", false),
        ("ls -la | grep .git", false),
        ("cat file.txt | grep pattern | head -n 5", false),
        // Unsafe piped commands
        ("find . -name '*.rs' | rm", true),
        ("ls -la | grep .git | rm -rf", true),
        ("echo hello | sudo rm -rf /", true),
    ];
    for (cmd, expected) in cmds {
        let tool = ExecuteBash { command: s(cmd) };
        assert_eq!(
            tool.requires_acceptance(),
            *expected,
            "expected command: `{}` to have requires_acceptance: `{}`",
            cmd,
            expected
        );
    }
}

#[test]
fn deny_list_wins_over_allow_list_and_trust_all() {
    // A tool in both the allow set and the deny set is denied, even with
    // the session-wide trust-all override.
    let agent = Agent {
        allowed_tools: vec![s("execute_bash")],
        denied_tools: vec![s("execute_bash")],
        use_aws_settings: None,
    };
    let agents = Agents { active: Some(agent), trust_all_tools: true };
    let tool = Tool::ExecuteBash(ExecuteBash { command: s("rm -rf /tmp/x") });
    assert_eq!(tool.eval_perm(&agents), PermissionEvalResult::Deny);
}

#[test]
fn allow_list_allows_and_default_asks() {
    let agent = Agent {
        allowed_tools: vec![s("execute_bash")],
        denied_tools: vec![],
        use_aws_settings: None,
    };
    let agents = Agents { active: Some(agent), trust_all_tools: false };
    let risky = Tool::ExecuteBash(ExecuteBash { command: s("rm -rf /tmp/x") });
    assert_eq!(risky.eval_perm(&agents), PermissionEvalResult::Allow);

    let agents = Agents { active: Some(Agent::new()), trust_all_tools: false };
    assert_eq!(risky.eval_perm(&agents), PermissionEvalResult::Ask);
    let safe = Tool::ExecuteBash(ExecuteBash { command: s("ls -al") });
    assert_eq!(safe.eval_perm(&agents), PermissionEvalResult::Allow);
}

#[test]
fn use_aws_service_lists_refine_the_allow_list() {
    let agent = Agent {
        allowed_tools: vec![s("use_aws")],
        denied_tools: vec![],
        use_aws_settings: Some(UseAwsSettings {
            allowed_services: vec![s("s3")],
            denied_services: vec![s("iam")],
        }),
    };
    assert_eq!(use_aws("iam", "delete-user").eval_perm(&agent), PermissionEvalResult::Deny);
    assert_eq!(use_aws("s3", "put-object").eval_perm(&agent), PermissionEvalResult::Allow);
    assert_eq!(use_aws("ec2", "run-instances").eval_perm(&agent), PermissionEvalResult::Ask);
}

#[test]
fn test_aws_context_creation() {
    let context = AwsContext {
        profile: s("test-profile"),
        region: s("us-west-2"),
        account_id: Some(s("123456789012")),
    };

    assert_eq!(context.profile, "test-profile");
    assert_eq!(context.region, "us-west-2");
    assert_eq!(context.account_id, Some(s("123456789012")));
}

#[test]
fn test_format_for_display_with_all_info() {
    let context = AwsContext {
        profile: s("production"),
        region: s("us-east-1"),
        account_id: Some(s("123456789012")),
    };

    let formatted = context.format_for_display();
    assert!(formatted.contains("AWS Profile: production"));
    assert!(formatted.contains("AWS Region: us-east-1"));
    assert!(formatted.contains("AWS Account ID: 123456789012"));
}

#[test]
fn test_format_for_display_with_missing_info() {
    let context = AwsContext {
        profile: s("test"),
        region: s("us-west-2"),
        account_id: None,
    };

    let formatted = context.format_for_display();
    assert!(formatted.contains("AWS Profile: test"));
    assert!(formatted.contains("AWS Region: us-west-2"));
    assert!(formatted.contains("AWS Account ID: Unable to determine"));
}

#[test]
fn account_id_shape_is_twelve_digits() {
    assert!(account_id_is_valid("123456789012"));
    assert!(!account_id_is_valid("12345678901"));
    assert!(!account_id_is_valid("1234567890123"));
    assert!(!account_id_is_valid("12345678901a"));
    assert!(!account_id_is_valid(""));
}

#[test]
fn account_id_errors_are_classified() {
    assert_eq!(
        classify_account_id_error("Unable to locate credentials. You can configure...", "dev"),
        "AWS credentials not found for profile 'dev'. Please configure your AWS credentials."
    );
    assert_eq!(
        classify_account_id_error("The config profile (dev) could not be found", "dev"),
        "AWS profile 'dev' not found. Please check your AWS configuration."
    );
    assert_eq!(
        classify_account_id_error("aws: No such file or directory", "dev"),
        "AWS CLI is not installed or not in PATH"
    );
    assert_eq!(
        classify_account_id_error("An error occurred (ExpiredToken) when calling", "dev"),
        "AWS credentials have expired. Please refresh your credentials."
    );
    assert_eq!(
        classify_account_id_error("An error occurred (AccessDenied) when calling", "dev"),
        "Access denied. Please check your AWS permissions."
    );
    assert_eq!(
        classify_account_id_error("something else entirely", "dev"),
        "AWS CLI command failed: something else entirely"
    );
}

#[test]
fn error_message_lists_possible_causes() {
    let msg = AwsContext::format_error_message("dev", "eu-west-1", "timed out");
    assert!(msg.contains("Profile: dev"));
    assert!(msg.contains("Region: eu-west-1"));
    assert!(msg.contains("Error: timed out"));
    assert!(msg.contains("AWS CLI is not installed or not in PATH"));
}

#[test]
fn shell_tool_preview_names_the_command() {
    let short = ExecuteBash { command: s("ls -al") };
    assert_eq!(
        short.queue_description(),
        "I will run the following shell command: ls -al"
    );
    let long = ExecuteBash { command: s("find . -name '*.rs' -exec wc -l {} +") };
    assert_eq!(
        long.queue_description(),
        "I will run the following shell command: \nfind . -name '*.rs' -exec wc -l {} +"
    );
}

#[test]
fn aws_tool_preview_lists_parameters() {
    let mut cmd = use_aws("s3", "put-object");
    cmd.parameters = Some(vec![
        (s("Bucket"), ScalarValue::Str(s("my-bucket"))),
        (s("Quiet"), ScalarValue::Str(s(""))),
    ]);
    cmd.label = Some(s("upload"));
    let preview = cmd.queue_description();
    assert!(preview.starts_with("Running aws cli command:\n\n"));
    assert!(preview.contains("Service name: s3\n"));
    assert!(preview.contains("Operation name: put-object\n"));
    assert!(preview.contains("- Bucket: \"my-bucket\"\n"));
    assert!(preview.contains("- Quiet\n"));
    assert!(preview.contains("Profile name: default\n"));
    assert!(preview.contains("Region: us-west-2"));
    assert!(preview.contains("\nLabel: upload"));
}

#[test]
fn cli_args_carry_region_profile_and_format() {
    let mut cmd = use_aws("dynamodb", "query");
    cmd.parameters = Some(vec![(s("TableName"), ScalarValue::Str(s("people")))]);
    let args = cmd.cli_args().unwrap();
    assert_eq!(
        args,
        vec![
            s("dynamodb"),
            s("query"),
            s("--table-name"),
            s("people"),
            s("--region"),
            s("us-west-2"),
            s("--profile"),
            s("default"),
            s("--output"),
            s("json"),
        ]
    );
}

#[test]
fn cli_parameter_values_render_scalars() {
    let mut cmd = use_aws("ec2", "run-instances");
    cmd.parameters = Some(vec![
        (s("DryRun"), ScalarValue::Bool(true)),
        (s("MaxCount"), ScalarValue::Int(3)),
        (s("Token"), ScalarValue::Null),
        (s("Filters"), ScalarValue::Json(s("[{\"Name\":\"x\"}]"))),
    ]);
    let params = cmd.cli_parameters().unwrap();
    assert_eq!(params[0], (s("--dry-run"), s("true")));
    assert_eq!(params[1], (s("--max-count"), s("3")));
    assert_eq!(params[2], (s("--token"), s("null")));
    assert_eq!(params[3], (s("--filters"), s("[{\"Name\":\"x\"}]")));
}
