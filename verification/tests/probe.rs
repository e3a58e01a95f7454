use ghiqc::matcher::IssueView;
use ghiqc::probe::assistant;
use ghiqc::probe::DeepInfraRequest;
use ghiqc::probe::DeepInfraResponse;
use ghiqc::probe::ProbeDeepInfra;
use ghiqc::probe::ProbeMessage;
use ghiqc::probe::ResponseChoice;
use ghiqc::probe::ResponseMessage;

#[test]
fn keeps_probe_endpoint_and_token() {
    let probe = ProbeDeepInfra::new(
        String::from("https://example.test/v1/chat"),
        String::from("token"),
    );
    assert_eq!(probe.url(), "https://example.test/v1/chat");
    assert_eq!(probe.token(), "token");
}

#[test]
fn keeps_message_role_and_content() {
    let message = ProbeMessage::new(String::from("user"), String::from("hello"));
    assert_eq!(message.role(), "user");
    assert_eq!(message.content(), "hello");
}

#[test]
fn keeps_request_model_and_messages() {
    let messages = vec![ProbeMessage::new(
        String::from("system"),
        String::from("be brief"),
    )];
    let request = DeepInfraRequest::new(String::from("some-model"), messages);
    assert_eq!(request.model(), "some-model");
    assert_eq!(request.messages().len(), 1);
    assert_eq!(request.messages()[0].role(), "system");
    assert_eq!(request.messages()[0].content(), "be brief");
}

#[test]
fn takes_first_choice_content() {
    let response = DeepInfraResponse::new(vec![
        ResponseChoice::new(ResponseMessage::new(String::from("first answer"))),
        ResponseChoice::new(ResponseMessage::new(String::from("second answer"))),
    ]);
    assert_eq!(response.first_content(), Some("first answer"));
}

#[test]
fn has_no_content_without_choices() {
    let response = DeepInfraResponse::new(vec![]);
    assert_eq!(response.first_content(), None);
}

#[test]
fn builds_review_messages_around_issue_body() {
    let issue = IssueView {
        title: String::from("t"),
        author: String::from("a"),
        labels: vec![],
        body: String::from("the report text"),
    };
    let messages = assistant(&issue);
    assert_eq!(messages.len(), 2);
    assert_eq!(messages[0].role(), "system");
    assert_eq!(
        messages[0].content(),
        "You are developer tasked to review incoming bug reports that developers are submit on GitHub Issue platform"
    );
    assert_eq!(messages[1].role(), "user");
    assert_eq!(
        messages[1].content(),
        format!(
            "Please review the following bug report and generate a simple summary.\
             Summary should contain 1 main quality problem related to this bug report formulation, \
             and 1 specific suggestion on how to improve it.\
             Summary should be short, less than 30 words.\
             Don't generate any other info.\
             Bug report: {}",
            "the report text"
        )
    );
}
