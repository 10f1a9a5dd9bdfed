# screen_capture

A screen-capture tool: it captures a screen, lets a region of it be chosen
and resized with grab handles, annotated with pen, rectangles and circles,
cropped and saved.

- `src/` is the verified library: the decisions of the tool.
  - `status.rs`: what the pointer is doing to the selection, and how a
    handle follows when the corners of the selection are put back in order.
  - `selection.rs`: which handle the pointer asks for, the cursor shown, the
    sides a handle drags, and the step of the area update.
  - `myapp.rs`: the capture flow (frames before the capture, overlay, export
    requests), the options, and the selection state.
  - `painting.rs`: drawing tools and the undo/redo history of annotations.
  - `shortcut.rs`: the capture shortcut and the window that changes it.
- `app/` is the window itself (eframe/egui): drawing, pointer and keyboard,
  floating-point geometry, screen capture and files.
- `tests/` runs the library on concrete values.
