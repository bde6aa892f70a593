# aws_toolkit

An MCP (Model Context Protocol) server that exposes AWS services as tools to
the Zed editor: SSO sign-in and account switching, S3, Lambda, CloudWatch
Logs, ECS and ECR.

- `src/` is the verified library (Verus): the AWS shared-config parser, the
  session's profile choice, the JSON-RPC router and tool manifest, the checks
  of every tool's arguments, the summaries of service records, base64 and the
  token-cache key, the decisions of the SSO device login and of renewing an expired token, and the choice of
  the server build that the editor extension downloads.
- `app/` is the server program: stdio, files, the AWS SDK calls and the Zed
  extension glue, each calling into the library for its decisions.
- `tests/` holds the library's tests.
