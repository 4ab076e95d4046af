//! Templates of the project test scripts that run one part at a time, and
//! of the script that runs them all.

use vstd::prelude::*;

verus! {

/// Template for test_server.sh with stdio transport
pub const STDIO_SERVER_TEST_TEMPLATE: &'static str = r#"#!/bin/bash

# Server test for {{name}} MCP project with stdio transport

set -e

echo "Building server..."
cd server
cargo build
cd ..

echo "Sending initialize and shutdown to the server..."
printf '%s\n%s\n' \
  '{"jsonrpc":"2.0","id":1,"method":"initialize","params":{"protocol_version":"2024-11-05"}}' \
  '{"jsonrpc":"2.0","id":2,"method":"shutdown","params":{}}' \
  | ./server/target/debug/{{name}}-server > server_test_output.json

if grep -q '"result"' server_test_output.json; then
  echo "Server test completed successfully!"
  rm server_test_output.json
else
  echo "Server test failed. Server output:"
  cat server_test_output.json
  rm server_test_output.json
  exit 1
fi
"#;

/// Template for test_client.sh with stdio transport
pub const STDIO_CLIENT_TEST_TEMPLATE: &'static str = r#"#!/bin/bash

# Client test for {{name}} MCP project with stdio transport

set -e

echo "Building server..."
cd server
cargo build
echo "Building client..."
cd ../client
cargo build
cd ..

echo "Running the client against the server..."
./server/target/debug/{{name}}-server | ./client/target/debug/{{name}}-client --name "MCP User" > client_test_output.txt

if grep -q "Hello, MCP User" client_test_output.txt; then
  echo "Client test completed successfully!"
  rm client_test_output.txt
else
  echo "Client test failed. Client output:"
  cat client_test_output.txt
  rm client_test_output.txt
  exit 1
fi
"#;

/// Template for test_server.sh with SSE transport
pub const SSE_SERVER_TEST_TEMPLATE: &'static str = r#"#!/bin/bash

# Server test for {{name}} MCP project with SSE transport

set -e

echo "Building server..."
cd server
cargo build
cd ..

echo "Starting server on port 8082..."
./server/target/debug/{{name}}-server --port 8082 > server_test_output.txt 2>&1 &
SERVER_PID=$!
sleep 3

if kill -0 $SERVER_PID 2>/dev/null; then
  echo "Server test completed successfully!"
  kill $SERVER_PID 2>/dev/null || true
  wait $SERVER_PID 2>/dev/null || true
  rm server_test_output.txt
else
  echo "Server test failed: the server did not keep running. Server output:"
  cat server_test_output.txt
  rm server_test_output.txt
  exit 1
fi
"#;

/// Template for test_client.sh with SSE transport
pub const SSE_CLIENT_TEST_TEMPLATE: &'static str = r#"#!/bin/bash

# Client test for {{name}} MCP project with SSE transport

set -e

echo "Building server..."
cd server
cargo build
echo "Building client..."
cd ../client
cargo build
cd ..

echo "Starting server on port 8083..."
./server/target/debug/{{name}}-server --port 8083 > /dev/null 2>&1 &
SERVER_PID=$!
trap 'kill $SERVER_PID 2>/dev/null || true' EXIT
sleep 3

echo "Running the client against the server..."
./client/target/debug/{{name}}-client --uri "http://localhost:8083" --name "MCP User" > client_test_output.txt

if grep -q "Hello, MCP User" client_test_output.txt; then
  echo "Client test completed successfully!"
  rm client_test_output.txt
else
  echo "Client test failed. Client output:"
  cat client_test_output.txt
  rm client_test_output.txt
  exit 1
fi
"#;

/// Template for run_tests.sh
pub const RUN_TESTS_TEMPLATE: &'static str = r#"#!/bin/bash

# Runs every test of the {{name}} MCP project

set -e

cd "$(dirname "$0")"

echo "Running server tests..."
./test_server.sh

echo "Running client tests..."
./test_client.sh

echo "Running combined test..."
./test.sh

echo "All tests of {{name}} passed!"
"#;

} // verus!
