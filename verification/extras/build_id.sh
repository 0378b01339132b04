#!/usr/bin/env bash
# Prints the build id, "#<short git hash> <local time>". The firmware is built
# with it in the environment:
#   BUILD_ID="$(extras/build_id.sh)" cargo build --release
# With a directory as its argument it also writes the id, without a newline, to
# a file `build_id` there, beside the firmware that is flashed:
#   BUILD_ID="$(extras/build_id.sh target/release)" cargo build --release
set -euo pipefail
build_id="#$(git rev-parse --short HEAD) $(date +%Y-%m-%dT%H:%M:%S)"
if [ $# -gt 0 ]; then
    mkdir -p "$1"
    printf '%s' "$build_id" > "$1/build_id"
fi
printf '%s\n' "$build_id"
